//! Operator approval for sends above the policy threshold.
//!
//! The operator holds an Ed25519 key whose private half is sealed under a passphrase typed at a
//! terminal. A send above the approval threshold needs a signature over that exact proposal
//! (id, address, amount, fee, expiry). The wallet holds only the public half: it can verify an
//! approval but not produce one. An approval is consumed on use and expires on its own.
//!
//! The functions here decide; reading and writing the files in the data directory is the
//! caller's part. What a read gave is handed in as a [`FileRead`], and what is to be written
//! or removed comes back as a value.
use vstd::prelude::*;
use vstd::string::StringSliceAdditionalSpecFns;
use vstd::utf8::{encode_utf8, is_ascii_chars, is_ascii_chars_encode_utf8};

use crate::primitives::{
    decode_verifying_key, ed25519_point_decodes, ed25519_public, ed25519_public_key, ed25519_sign,
    ed25519_signature, ed25519_verifies, ed25519_verify, hex_decodable, hex_decode, hex_decoded,
    hex_encode, hex_lower, random_secret, signature_from_slice, since_unix_epoch, system_now,
    whole_seconds, OperatorKey,
};
use crate::text::{
    chars_of, decimal, join, join_path, lemma_decimal_injective, lemma_decimal_no_newline,
    lemma_split_first_newline, lemma_split_last_newline, no_newline, push_decimal, trim, trimmed,
};

verus! {

/// What an approval is for. Every field is part of the signed message.
#[derive(Debug, Clone, PartialEq, Eq)]
pub struct Proposal {
    pub id: String,
    pub address: String,
    pub amount: u64,
    pub fee: u64,
}

/// Why an approval was not accepted.
#[derive(Debug, Clone, PartialEq, Eq)]
pub enum ApprovalError {
    /// `zumbra operator init` has not been run for this data directory.
    NoOperatorKey,
    /// No approval file for this proposal id (carried so the hint names the command to run).
    NoApproval(String),
    /// The approval was for a different address, amount or fee.
    Mismatch,
    /// The approval's expiry has passed.
    Expired(String),
    /// The approval was not signed by this wallet's operator key.
    BadSignature,
    /// The approval or key file could not be read or parsed.
    Unreadable(String),
}

/// A signed approval as it is stored, one file per proposal id.
#[derive(Debug, Clone, PartialEq, Eq)]
pub struct ApprovalRecord {
    pub id: String,
    pub address: String,
    pub amount: u64,
    pub fee: u64,
    pub expires_at: u64,
    /// The Ed25519 signature over the approval message, in lower-case hex.
    pub signature: String,
}

/// What reading one file of the data directory gave.
#[derive(Debug, Clone, PartialEq, Eq)]
pub enum FileRead<T> {
    /// The file does not exist.
    Absent,
    /// The file exists but could not be read; the text says why.
    Failed(String),
    /// The file was read but did not parse; the text says why.
    Malformed(String),
    /// The file's contents.
    Read(T),
}

/// Why an operator-side step (key creation, approval, proposal records) failed.
#[derive(Debug, Clone, PartialEq, Eq)]
pub enum OperatorError {
    /// A proposal id is not 1 to 64 characters of `[A-Za-z0-9-]`.
    InvalidProposalId,
    /// An operator key already exists in the data directory named here.
    KeyExists(String),
    /// The operator passphrase is empty.
    EmptyPassphrase,
    /// There is no operator key in the data directory.
    NoOperatorKey,
    /// The passphrase did not open the sealed operator key.
    WrongPassphrase,
    /// The opened operator key is not 32 bytes.
    CorruptKey,
    /// No proposal with this id was recorded; the second text says why it could not be read.
    NoRecordedProposal(String, String),
    /// Reading, parsing or writing a file failed; the text says why.
    Storage(String),
}

/// A fresh operator key: the secret to be sealed and the public half to be stored in hex.
#[derive(Debug, Clone, PartialEq, Eq)]
pub struct OperatorKeyPair {
    pub secret: [u8; 32],
    pub public_hex: String,
}

// ---------------------------------------------------------------------------------------------
// Proposal ids
// ---------------------------------------------------------------------------------------------

/// A character allowed in a proposal id: `[A-Za-z0-9-]`.
pub open spec fn allowed_id_char(c: char) -> bool {
    let v = c as int;
    (97 <= v && v <= 122) || (65 <= v && v <= 90) || (48 <= v && v <= 57) || v == 45
}

/// A proposal id that may name a file: 1 to 64 characters of `[A-Za-z0-9-]`.
pub open spec fn is_safe_id(id: Seq<char>) -> bool {
    1 <= id.len() <= 64 && forall|i: int| 0 <= i < id.len() ==> allowed_id_char(#[trigger] id[i])
}

fn is_allowed_id_char(c: char) -> (b: bool)
    ensures
        b == allowed_id_char(c),
{
    ('a' <= c && c <= 'z') || ('A' <= c && c <= 'Z') || ('0' <= c && c <= '9') || c == '-'
}

/// The ids a proposal may carry are exactly those of 1 to 64 characters, each an ASCII
/// upper-case letter, lower-case letter, digit or hyphen.
pub proof fn lemma_safe_ids_are_exactly(id: Seq<char>)
    ensures
        is_safe_id(id) <==> (1 <= id.len() <= 64 && forall|i: int|
            0 <= i < id.len() ==> {
                let c = #[trigger] id[i];
                ('A' <= c && c <= 'Z') || ('a' <= c && c <= 'z') || ('0' <= c && c <= '9')
                    || c == '-'
            }),
{
    assert forall|c: char| #[trigger] allowed_id_char(c) <==> (('A' <= c && c <= 'Z') || ('a' <= c
        && c <= 'z') || ('0' <= c && c <= '9') || c == '-') by {
    }
}

/// Accepts a proposal id that is 1 to 64 characters of `[A-Za-z0-9-]`, so that it can name a
/// file inside the data directory and nowhere else.
pub fn safe_id(id: &str) -> (res: Result<&str, OperatorError>)
    ensures
        is_safe_id(id@) ==> res == Ok::<&str, OperatorError>(id),
        !is_safe_id(id@) ==> res == Err::<&str, OperatorError>(OperatorError::InvalidProposalId),
        (1 <= id@.len() <= 64 && forall|i: int|
            0 <= i < id@.len() ==> {
                let c = #[trigger] id@[i];
                ('A' <= c && c <= 'Z') || ('a' <= c && c <= 'z') || ('0' <= c && c <= '9')
                    || c == '-'
            }) ==> res == Ok::<&str, OperatorError>(id),
{
    proof {
        lemma_safe_ids_are_exactly(id@);
    }
    let c = chars_of(id);
    if c.len() == 0 || c.len() > 64 {
        return Err(OperatorError::InvalidProposalId);
    }
    let mut i: usize = 0;
    while i < c.len()
        invariant
            c@ == id@,
            i <= c@.len(),
            forall|k: int| 0 <= k < i ==> allowed_id_char(#[trigger] id@[k]),
        decreases c@.len() - i,
    {
        if !is_allowed_id_char(c[i]) {
            return Err(OperatorError::InvalidProposalId);
        }
        i = i + 1;
    }
    Ok(id)
}

// ---------------------------------------------------------------------------------------------
// The signed message
// ---------------------------------------------------------------------------------------------

/// The text an approval signs: a version line, then the id, address, amount, fee and expiry,
/// each on a line of its own.
pub open spec fn message_text(p: Proposal, expires_at: u64) -> Seq<char> {
    "zumbra-approval-v1\n"@ + p.id@ + "\n"@ + p.address@ + "\n"@ + decimal(p.amount as nat)
        + "\n"@ + decimal(p.fee as nat) + "\n"@ + decimal(expires_at as nat) + "\n"@
}

/// The bytes an approval signs: the UTF-8 encoding of [`message_text`].
pub open spec fn message_bytes(p: Proposal, expires_at: u64) -> Seq<u8> {
    encode_utf8(message_text(p, expires_at))
}

/// The message the operator signs for proposal `p` valid until `expires_at`.
pub fn message(p: &Proposal, expires_at: u64) -> (res: Vec<u8>)
    ensures
        res@ == message_bytes(*p, expires_at),
{
    let mut text = String::from_str("zumbra-approval-v1\n");
    text.append(p.id.as_str());
    text.append("\n");
    text.append(p.address.as_str());
    text.append("\n");
    push_decimal(&mut text, p.amount);
    text.append("\n");
    push_decimal(&mut text, p.fee);
    text.append("\n");
    push_decimal(&mut text, expires_at);
    text.append("\n");
    text.as_str().as_bytes_vec()
}

// ---------------------------------------------------------------------------------------------
// Error texts
// ---------------------------------------------------------------------------------------------

/// The text shown for an approval error.
pub open spec fn approval_error_text(e: ApprovalError) -> Seq<char> {
    match e {
        ApprovalError::NoOperatorKey =>
            "APPROVAL_REQUIRED: no operator key; the operator must run `zumbra operator init` first"@,
        ApprovalError::NoApproval(id) =>
            "APPROVAL_REQUIRED: no operator approval for this proposal; the operator runs `zumbra approve "@
            + id@ + "` at their terminal"@,
        ApprovalError::Mismatch =>
            "APPROVAL_REQUIRED: the operator approval is for a different proposal"@,
        ApprovalError::Expired(id) =>
            "APPROVAL_REQUIRED: the operator approval has expired; the operator runs `zumbra approve "@
            + id@ + "` again"@,
        ApprovalError::BadSignature =>
            "APPROVAL_REQUIRED: the operator approval is not signed by this wallet's operator key"@,
        ApprovalError::Unreadable(e) => "APPROVAL_REQUIRED: operator approval unreadable: "@ + e@,
    }
}

impl ApprovalError {
    /// The message shown to the agent and the operator for this error.
    pub fn describe(&self) -> (text: String)
        ensures
            text@ == approval_error_text(*self),
    {
        match self {
            ApprovalError::NoOperatorKey => String::from_str(
                "APPROVAL_REQUIRED: no operator key; the operator must run `zumbra operator init` first",
            ),
            ApprovalError::NoApproval(id) => {
                let mut t = String::from_str(
                    "APPROVAL_REQUIRED: no operator approval for this proposal; the operator runs `zumbra approve ",
                );
                t.append(id.as_str());
                t.append("` at their terminal");
                t
            },
            ApprovalError::Mismatch => String::from_str(
                "APPROVAL_REQUIRED: the operator approval is for a different proposal",
            ),
            ApprovalError::Expired(id) => {
                let mut t = String::from_str(
                    "APPROVAL_REQUIRED: the operator approval has expired; the operator runs `zumbra approve ",
                );
                t.append(id.as_str());
                t.append("` again");
                t
            },
            ApprovalError::BadSignature => String::from_str(
                "APPROVAL_REQUIRED: the operator approval is not signed by this wallet's operator key",
            ),
            ApprovalError::Unreadable(e) => {
                let mut t = String::from_str("APPROVAL_REQUIRED: operator approval unreadable: ");
                t.append(e.as_str());
                t
            },
        }
    }
}

/// The text shown for an operator-side error.
pub open spec fn operator_error_text(e: OperatorError) -> Seq<char> {
    match e {
        OperatorError::InvalidProposalId =>
            "proposal id must be 1 to 64 characters of [A-Za-z0-9-]"@,
        OperatorError::KeyExists(dir) => "an operator key already exists in "@ + dir@
            + "; remove operator.key and operator.pub by hand to replace it"@,
        OperatorError::EmptyPassphrase => "the operator passphrase must not be empty"@,
        OperatorError::NoOperatorKey => approval_error_text(ApprovalError::NoOperatorKey),
        OperatorError::WrongPassphrase => "wrong operator passphrase"@,
        OperatorError::CorruptKey => "operator.key is corrupt"@,
        OperatorError::NoRecordedProposal(id, why) => "no recorded proposal "@ + id@ + ": "@
            + why@,
        OperatorError::Storage(why) => why@,
    }
}

impl OperatorError {
    /// The message shown to the operator for this error.
    pub fn describe(&self) -> (text: String)
        ensures
            text@ == operator_error_text(*self),
    {
        match self {
            OperatorError::InvalidProposalId => String::from_str(
                "proposal id must be 1 to 64 characters of [A-Za-z0-9-]",
            ),
            OperatorError::KeyExists(dir) => {
                let mut t = String::from_str("an operator key already exists in ");
                t.append(dir.as_str());
                t.append("; remove operator.key and operator.pub by hand to replace it");
                t
            },
            OperatorError::EmptyPassphrase => String::from_str(
                "the operator passphrase must not be empty",
            ),
            OperatorError::NoOperatorKey => ApprovalError::NoOperatorKey.describe(),
            OperatorError::WrongPassphrase => String::from_str("wrong operator passphrase"),
            OperatorError::CorruptKey => String::from_str("operator.key is corrupt"),
            OperatorError::NoRecordedProposal(id, why) => {
                let mut t = String::from_str("no recorded proposal ");
                t.append(id.as_str());
                t.append(": ");
                t.append(why.as_str());
                t
            },
            OperatorError::Storage(why) => why.clone(),
        }
    }
}

// ---------------------------------------------------------------------------------------------
// Paths inside the data directory
// ---------------------------------------------------------------------------------------------

/// The public half of the operator key, in hex.
pub fn pub_path(data_dir: &str) -> (res: String)
    ensures
        res@ == join_path(data_dir@, "operator.pub"@),
{
    join(data_dir, "operator.pub")
}

/// The sealed private half of the operator key.
pub fn key_path(data_dir: &str) -> (res: String)
    ensures
        res@ == join_path(data_dir@, "operator.key"@),
{
    join(data_dir, "operator.key")
}

/// The directory of signed approvals.
pub fn approvals_dir(data_dir: &str) -> (res: String)
    ensures
        res@ == join_path(data_dir@, "approvals"@),
{
    join(data_dir, "approvals")
}

/// The directory of recorded proposals.
pub fn proposals_dir(data_dir: &str) -> (res: String)
    ensures
        res@ == join_path(data_dir@, "proposals"@),
{
    join(data_dir, "proposals")
}

/// The file named `<id>.json` inside `dir`.
pub open spec fn id_file(dir: Seq<char>, id: Seq<char>) -> Seq<char> {
    join_path(dir, id + ".json"@)
}

fn id_file_in(dir: &str, id: &str) -> (res: String)
    ensures
        res@ == id_file(dir@, id@),
{
    let mut name = String::from_str(id);
    name.append(".json");
    join(dir, name.as_str())
}

/// The approval file for proposal `id`, for a safe id only.
pub fn approval_file(data_dir: &str, id: &str) -> (res: Result<String, OperatorError>)
    ensures
        is_safe_id(id@) ==> (res matches Ok(path) && path@ == id_file(
            join_path(data_dir@, "approvals"@),
            id@,
        )),
        !is_safe_id(id@) ==> res == Err::<String, OperatorError>(
            OperatorError::InvalidProposalId,
        ),
{
    match safe_id(id) {
        Err(e) => Err(e),
        Ok(id) => {
            let dir = approvals_dir(data_dir);
            Ok(id_file_in(dir.as_str(), id))
        },
    }
}

/// The proposal file for proposal `id`, for a safe id only.
pub fn proposal_file(data_dir: &str, id: &str) -> (res: Result<String, OperatorError>)
    ensures
        is_safe_id(id@) ==> (res matches Ok(path) && path@ == id_file(
            join_path(data_dir@, "proposals"@),
            id@,
        )),
        !is_safe_id(id@) ==> res == Err::<String, OperatorError>(
            OperatorError::InvalidProposalId,
        ),
{
    match safe_id(id) {
        Err(e) => Err(e),
        Ok(id) => {
            let dir = proposals_dir(data_dir);
            Ok(id_file_in(dir.as_str(), id))
        },
    }
}

/// Both halves of the operator key are on disk.
pub fn operator_key_exists(public_file_exists: bool, secret_file_exists: bool) -> (res: bool)
    ensures
        res == (public_file_exists && secret_file_exists),
{
    public_file_exists && secret_file_exists
}

/// The whole seconds since the Unix epoch from a reading of the clock: the seconds read, or 0
/// when the clock read a time before the epoch.
pub fn secs_or_zero(reading: Result<u64, ()>) -> (s: u64)
    ensures
        s == match reading {
            Ok(v) => v,
            Err(_) => 0,
        },
{
    match reading {
        Ok(v) => v,
        Err(()) => 0,
    }
}

/// The current time in whole seconds since the Unix epoch, or 0 if the clock reads earlier.
/// What the clock reads is not stated; [`secs_or_zero`] turns the reading into the result.
pub fn now_unix() -> u64 {
    let now = system_now();
    let reading = match since_unix_epoch(&now) {
        Ok(d) => Ok(whole_seconds(&d)),
        Err(_) => Err(()),
    };
    secs_or_zero(reading)
}

// ---------------------------------------------------------------------------------------------
// Hex round trip
// ---------------------------------------------------------------------------------------------

/// Lower-case hex text is ASCII without whitespace, is its own trimmed form, and decodes back
/// to the bytes it encodes.
pub proof fn lemma_hex_round_trip(b: Seq<u8>)
    ensures
        trimmed(hex_lower(b)) == hex_lower(b),
        hex_decodable(encode_utf8(hex_lower(b))),
        hex_decoded(encode_utf8(hex_lower(b))) == b,
{
    let h = hex_lower(b);
    assert forall|i: int| 0 <= i < h.len() implies 48 <= (#[trigger] h[i] as u32) && (h[i] as u32)
        <= 102 && ((h[i] as u32) <= 57 || 97 <= (h[i] as u32)) by {
        let v: int = if i % 2 == 0 {
            b[i / 2] as int / 16
        } else {
            b[i / 2] as int % 16
        };
        assert(0 <= v < 16);
    }
    assert(is_ascii_chars(h));
    is_ascii_chars_encode_utf8(h);
    crate::text::lemma_trim_no_white_space(h);
    let e = encode_utf8(h);
    assert(hex_decodable(e));
    assert forall|k: int| 0 <= k < b.len() implies #[trigger] hex_decoded(e)[k] == b[k] by {
        assert(e[2 * k] == h[2 * k] as u8);
        assert(e[2 * k + 1] == h[2 * k + 1] as u8);
        assert((2 * k) / 2 == k);
        assert((2 * k + 1) / 2 == k);
        assert((2 * k) % 2 == 0);
        assert((2 * k + 1) % 2 == 1);
    }
    assert(hex_decoded(e) =~= b);
}

// ---------------------------------------------------------------------------------------------
// The operator's public key
// ---------------------------------------------------------------------------------------------

/// The key bytes that `operator.pub` holds: its trimmed text decoded from hex, if that is 32
/// bytes that decode to a curve point.
pub open spec fn decoded_public_key(text: Seq<char>) -> Option<Seq<u8>> {
    let t = encode_utf8(trimmed(text));
    if hex_decodable(t) && hex_decoded(t).len() == 32 && ed25519_point_decodes(hex_decoded(t)) {
        Some(hex_decoded(t))
    } else {
        None
    }
}

fn to_array32(v: &Vec<u8>) -> (a: [u8; 32])
    requires
        v@.len() == 32,
    ensures
        a@ == v@,
{
    let mut a = [0u8; 32];
    let mut i: usize = 0;
    while i < 32
        invariant
            v@.len() == 32,
            a@.len() == 32,
            i <= 32,
            forall|k: int| 0 <= k < i ==> a@[k] == v@[k],
        decreases 32 - i,
    {
        a[i] = v[i];
        i = i + 1;
    }
    assert(a@ =~= v@);
    a
}

/// What decoding `operator.pub` gives: no key when the file is absent, its read or parse error
/// as unreadable, and for its text the key that [`decoded_public_key`] finds, or unreadable
/// (with a fixed message when the hex is valid but not 32 bytes).
pub open spec fn key_decoding(
    operator_pub: FileRead<String>,
    res: Result<OperatorKey, ApprovalError>,
) -> bool {
    match operator_pub {
        FileRead::Absent => res == Err::<OperatorKey, ApprovalError>(ApprovalError::NoOperatorKey),
        FileRead::Failed(e) => res == Err::<OperatorKey, ApprovalError>(
            ApprovalError::Unreadable(e),
        ),
        FileRead::Malformed(e) => res == Err::<OperatorKey, ApprovalError>(
            ApprovalError::Unreadable(e),
        ),
        FileRead::Read(text) => {
            let t = encode_utf8(trimmed(text@));
            &&& match decoded_public_key(text@) {
                Some(pk) => match res {
                    Ok(k) => k.encoded() == pk,
                    Err(_) => false,
                },
                None => match res {
                    Err(ApprovalError::Unreadable(_)) => true,
                    _ => false,
                },
            }
            &&& (hex_decodable(t) && hex_decoded(t).len() != 32) ==> match res {
                Err(ApprovalError::Unreadable(m)) => m@ == "operator.pub is not 32 bytes"@,
                _ => false,
            }
        },
    }
}

/// Decodes the operator's public key from what reading `operator.pub` gave.
pub fn verifying_key(operator_pub: &FileRead<String>) -> (res: Result<OperatorKey, ApprovalError>)
    ensures
        key_decoding(*operator_pub, res),
{
    match operator_pub {
        FileRead::Absent => Err(ApprovalError::NoOperatorKey),
        FileRead::Failed(e) => Err(ApprovalError::Unreadable(e.clone())),
        FileRead::Malformed(e) => Err(ApprovalError::Unreadable(e.clone())),
        FileRead::Read(text) => {
            let t = trim(text.as_str());
            let bytes = match hex_decode(t.as_bytes()) {
                Ok(b) => b,
                Err(e) => return Err(ApprovalError::Unreadable(e)),
            };
            if bytes.len() != 32 {
                return Err(ApprovalError::Unreadable(String::from_str("operator.pub is not 32 bytes")));
            }
            let arr = to_array32(&bytes);
            match decode_verifying_key(arr) {
                Ok(k) => Ok(k),
                Err(e) => Err(ApprovalError::Unreadable(e)),
            }
        },
    }
}

// ---------------------------------------------------------------------------------------------
// Checking and consuming an approval
// ---------------------------------------------------------------------------------------------

/// How a check of an approval ends.
#[derive(Debug, Clone, PartialEq, Eq)]
pub enum Outcome {
    Accepted,
    NoOperatorKey,
    NoApproval,
    Mismatch,
    Expired,
    BadSignature,
    Unreadable,
}

/// The verdict on an approval: accepted, or refused with the reason.
#[derive(Debug, Clone, PartialEq, Eq)]
pub enum Verdict {
    Accept,
    Refuse(ApprovalError),
}

impl ApprovalError {
    /// Which way of ending a check this error reports.
    pub open spec fn outcome(self) -> Outcome {
        match self {
            ApprovalError::NoOperatorKey => Outcome::NoOperatorKey,
            ApprovalError::NoApproval(_) => Outcome::NoApproval,
            ApprovalError::Mismatch => Outcome::Mismatch,
            ApprovalError::Expired(_) => Outcome::Expired,
            ApprovalError::BadSignature => Outcome::BadSignature,
            ApprovalError::Unreadable(_) => Outcome::Unreadable,
        }
    }
}

impl Verdict {
    /// Which way the check ended.
    pub open spec fn outcome(self) -> Outcome {
        match self {
            Verdict::Accept => Outcome::Accepted,
            Verdict::Refuse(e) => e.outcome(),
        }
    }

    /// Whether the approval file is to be removed: after it is used, and once it has expired.
    pub fn removes_file(&self) -> (b: bool)
        ensures
            b == (self.outcome() == Outcome::Accepted || self.outcome() == Outcome::Expired),
    {
        match self {
            Verdict::Accept => true,
            Verdict::Refuse(ApprovalError::Expired(_)) => true,
            Verdict::Refuse(_) => false,
        }
    }
}

/// A stored approval names exactly the proposal: same id, address, amount and fee.
pub open spec fn record_matches(r: ApprovalRecord, p: Proposal) -> bool {
    r.id@ == p.id@ && r.address@ == p.address@ && r.amount == p.amount && r.fee == p.fee
}

/// How a check ends once the operator key `pk` is known.
pub open spec fn stored_outcome(
    pk: Seq<u8>,
    p: Proposal,
    stored: FileRead<ApprovalRecord>,
    now: u64,
) -> Outcome {
    match stored {
        FileRead::Absent => Outcome::NoApproval,
        FileRead::Read(r) => {
            let sig = encode_utf8(r.signature@);
            if !record_matches(r, p) {
                Outcome::Mismatch
            } else if !hex_decodable(sig) || hex_decoded(sig).len() != 64 {
                Outcome::Unreadable
            } else if !ed25519_verifies(pk, message_bytes(p, r.expires_at), hex_decoded(sig)) {
                Outcome::BadSignature
            } else if now > r.expires_at {
                Outcome::Expired
            } else {
                Outcome::Accepted
            }
        },
        _ => Outcome::Unreadable,
    }
}

/// How the check of proposal `p` at time `now` ends, given what reading `operator.pub` and the
/// proposal's approval file gave.
pub open spec fn outcome(
    operator_pub: FileRead<String>,
    p: Proposal,
    stored: FileRead<ApprovalRecord>,
    now: u64,
) -> Outcome {
    match operator_pub {
        FileRead::Absent => Outcome::NoOperatorKey,
        FileRead::Read(text) => match decoded_public_key(text@) {
            None => Outcome::Unreadable,
            Some(pk) => if !is_safe_id(p.id@) {
                Outcome::Unreadable
            } else {
                stored_outcome(pk, p, stored, now)
            },
        },
        _ => Outcome::Unreadable,
    }
}

/// The texts a refusal carries: read and parse errors of either file pass through unchanged,
/// and an unsafe id is reported with the id error's message.
pub open spec fn refusal_texts(
    operator_pub: FileRead<String>,
    p: Proposal,
    stored: FileRead<ApprovalRecord>,
    res: Verdict,
) -> bool {
    match operator_pub {
        FileRead::Failed(e) => res == Verdict::Refuse(ApprovalError::Unreadable(e)),
        FileRead::Malformed(e) => res == Verdict::Refuse(ApprovalError::Unreadable(e)),
        FileRead::Read(text) => decoded_public_key(text@) is Some ==> if !is_safe_id(p.id@) {
            match res {
                Verdict::Refuse(ApprovalError::Unreadable(m)) => m@ == operator_error_text(
                    OperatorError::InvalidProposalId,
                ),
                _ => false,
            }
        } else {
            match stored {
                FileRead::Failed(e) => res == Verdict::Refuse(ApprovalError::Unreadable(e)),
                FileRead::Malformed(e) => res == Verdict::Refuse(ApprovalError::Unreadable(e)),
                _ => true,
            }
        },
        FileRead::Absent => true,
    }
}

/// Checks the approval for `p` at time `now`. An approval is accepted when the operator key
/// decodes, the id is safe, the stored approval names exactly `p`, its signature verifies
/// under the operator key over the message for `p` and its expiry, and `now` is not past the
/// expiry. Afterwards the approval file is deleted where `removes_file` asks for it, and
/// `settle` gives the result.
pub fn verify_and_consume(
    operator_pub: &FileRead<String>,
    p: &Proposal,
    stored: &FileRead<ApprovalRecord>,
    now: u64,
) -> (res: Verdict)
    ensures
        res.outcome() == outcome(*operator_pub, *p, *stored, now),
        res matches Verdict::Refuse(ApprovalError::NoApproval(id)) ==> id == p.id,
        res matches Verdict::Refuse(ApprovalError::Expired(id)) ==> id == p.id,
        refusal_texts(*operator_pub, *p, *stored, res),
{
    let key = match verifying_key(operator_pub) {
        Ok(k) => k,
        Err(e) => return Verdict::Refuse(e),
    };
    if let Err(e) = safe_id(p.id.as_str()) {
        return Verdict::Refuse(ApprovalError::Unreadable(e.describe()));
    }
    let r = match stored {
        FileRead::Absent => return Verdict::Refuse(ApprovalError::NoApproval(p.id.clone())),
        FileRead::Failed(e) => return Verdict::Refuse(ApprovalError::Unreadable(e.clone())),
        FileRead::Malformed(e) => return Verdict::Refuse(ApprovalError::Unreadable(e.clone())),
        FileRead::Read(r) => r,
    };
    if r.id != p.id || r.address != p.address || r.amount != p.amount || r.fee != p.fee {
        return Verdict::Refuse(ApprovalError::Mismatch);
    }
    let sig_bytes = match hex_decode(r.signature.as_str().as_bytes()) {
        Ok(b) => b,
        Err(e) => return Verdict::Refuse(ApprovalError::Unreadable(e)),
    };
    let sig = match signature_from_slice(sig_bytes.as_slice()) {
        Ok(s) => s,
        Err(e) => return Verdict::Refuse(ApprovalError::Unreadable(e)),
    };
    let msg = message(p, r.expires_at);
    if !ed25519_verify(&key, msg.as_slice(), &sig) {
        return Verdict::Refuse(ApprovalError::BadSignature);
    }
    if now > r.expires_at {
        return Verdict::Refuse(ApprovalError::Expired(p.id.clone()));
    }
    Verdict::Accept
}

/// Finishes a check once the caller has removed the approval file where the verdict asked
/// for it: an accepted approval whose file could not be removed is refused as unreadable, so
/// that it cannot be used twice; a refusal stands whatever the removal gave.
pub fn settle(verdict: Verdict, removal: Result<(), String>) -> (res: Result<(), ApprovalError>)
    ensures
        match verdict {
            Verdict::Accept => match removal {
                Ok(_) => res is Ok,
                Err(e) => res == Err::<(), ApprovalError>(ApprovalError::Unreadable(e)),
            },
            Verdict::Refuse(e) => res == Err::<(), ApprovalError>(e),
        },
{
    match verdict {
        Verdict::Accept => match removal {
            Ok(()) => Ok(()),
            Err(e) => Err(ApprovalError::Unreadable(e)),
        },
        Verdict::Refuse(e) => Err(e),
    }
}

// ---------------------------------------------------------------------------------------------
// Creating the operator key and signing approvals
// ---------------------------------------------------------------------------------------------

/// The operator key pair derived from a 32-byte secret: the public half is the Ed25519
/// verifying key of the secret, in lower-case hex.
pub fn operator_key_from_secret(secret: [u8; 32]) -> (k: OperatorKeyPair)
    ensures
        k.secret == secret,
        k.public_hex@ == hex_lower(ed25519_public(secret@)),
        ed25519_public(secret@).len() == 32,
        ed25519_point_decodes(ed25519_public(secret@)),
{
    let public = ed25519_public_key(&secret);
    let public_hex = hex_encode(&public);
    OperatorKeyPair { secret, public_hex }
}

/// Creates the operator key pair from fresh random bytes. Refuses when either half of a key is
/// already in the data directory (`key_present`), so an existing key is never replaced, and
/// refuses an empty passphrase. The caller seals `secret` under the passphrase into
/// `operator.key` and writes `public_hex` to `operator.pub`.
pub fn operator_init(data_dir: &str, key_present: bool, passphrase: &str) -> (res: Result<
    OperatorKeyPair,
    OperatorError,
>)
    ensures
        key_present ==> (res matches Err(OperatorError::KeyExists(dir)) && dir@ == data_dir@),
        !key_present && passphrase@.len() == 0 ==> res == Err::<OperatorKeyPair, OperatorError>(
            OperatorError::EmptyPassphrase,
        ),
        !key_present && passphrase@.len() > 0 ==> (res matches Ok(k) && k.public_hex@
            == hex_lower(ed25519_public(k.secret@)) && ed25519_public(k.secret@).len() == 32
            && ed25519_point_decodes(ed25519_public(k.secret@))),
{
    if key_present {
        return Err(OperatorError::KeyExists(String::from_str(data_dir)));
    }
    if passphrase.is_empty() {
        return Err(OperatorError::EmptyPassphrase);
    }
    let secret = random_secret();
    Ok(operator_key_from_secret(secret))
}

/// `now + ttl`, saturating at the largest `u64`.
pub open spec fn expiry(now: u64, ttl_secs: u64) -> u64 {
    if now + ttl_secs > u64::MAX {
        u64::MAX
    } else {
        (now + ttl_secs) as u64
    }
}

/// The approval that the secret `secret` gives for `p`, valid until `expires_at`.
pub open spec fn is_signed_approval(
    r: ApprovalRecord,
    secret: Seq<u8>,
    p: Proposal,
    expires_at: u64,
) -> bool {
    &&& r.id == p.id
    &&& r.address == p.address
    &&& r.amount == p.amount
    &&& r.fee == p.fee
    &&& r.expires_at == expires_at
    &&& r.signature@ == hex_lower(ed25519_signature(secret, message_bytes(p, expires_at)))
}

/// Shows that an approval signed with `secret` is accepted, under the public key of `secret`
/// written in hex, by a check at any time up to its expiry.
proof fn lemma_signed_approval_accepted(
    r: ApprovalRecord,
    secret: Seq<u8>,
    p: Proposal,
    text: String,
    later: u64,
)
    requires
        is_signed_approval(r, secret, p, r.expires_at),
        is_safe_id(p.id@),
        text@ == hex_lower(ed25519_public(secret)),
        ed25519_public(secret).len() == 32,
        ed25519_point_decodes(ed25519_public(secret)),
        ed25519_signature(secret, message_bytes(p, r.expires_at)).len() == 64,
        ed25519_verifies(
            ed25519_public(secret),
            message_bytes(p, r.expires_at),
            ed25519_signature(secret, message_bytes(p, r.expires_at)),
        ),
        later <= r.expires_at,
    ensures
        outcome(FileRead::Read(text), p, FileRead::Read(r), later) == Outcome::Accepted,
{
    let pk = ed25519_public(secret);
    let sig = ed25519_signature(secret, message_bytes(p, r.expires_at));
    lemma_hex_round_trip(pk);
    lemma_hex_round_trip(sig);
    assert(decoded_public_key(text@) == Some(pk));
}

/// Signs proposal `p` with the operator's secret, valid for `ttl_secs` from `now` (the expiry
/// saturates). The caller hands in whether the operator key is on disk and what opening the
/// sealed secret with the operator's passphrase gave, and writes the returned record to the
/// approval file. The record is accepted by [`verify_and_consume`] under the operator's public
/// key at any time up to its expiry.
pub fn approve(
    key_present: bool,
    unsealed: Result<Vec<u8>, OperatorError>,
    p: &Proposal,
    ttl_secs: u64,
    now: u64,
) -> (res: Result<ApprovalRecord, OperatorError>)
    ensures
        !is_safe_id(p.id@) ==> res == Err::<ApprovalRecord, OperatorError>(
            OperatorError::InvalidProposalId,
        ),
        is_safe_id(p.id@) && !key_present ==> res == Err::<ApprovalRecord, OperatorError>(
            OperatorError::NoOperatorKey,
        ),
        is_safe_id(p.id@) && key_present ==> match unsealed {
            Err(e) => res == Err::<ApprovalRecord, OperatorError>(e),
            Ok(secret) => if secret@.len() != 32 {
                res == Err::<ApprovalRecord, OperatorError>(OperatorError::CorruptKey)
            } else {
                match res {
                    Ok(r) => {
                        &&& is_signed_approval(r, secret@, *p, expiry(now, ttl_secs))
                        &&& forall|text: String, later: u64|
                            text@ == hex_lower(ed25519_public(secret@)) && ed25519_public(
                                secret@,
                            ).len() == 32 && ed25519_point_decodes(ed25519_public(secret@))
                                && later <= r.expires_at ==> #[trigger] outcome(
                                FileRead::Read(text),
                                *p,
                                FileRead::Read(r),
                                later,
                            ) == Outcome::Accepted
                    },
                    Err(_) => false,
                }
            },
        },
{
    if let Err(e) = safe_id(p.id.as_str()) {
        return Err(e);
    }
    if !key_present {
        return Err(OperatorError::NoOperatorKey);
    }
    let secret = match unsealed {
        Ok(s) => s,
        Err(e) => return Err(e),
    };
    if secret.len() != 32 {
        return Err(OperatorError::CorruptKey);
    }
    let key = to_array32(&secret);
    let expires_at = now.saturating_add(ttl_secs);
    let msg = message(p, expires_at);
    let sig = ed25519_sign(&key, msg.as_slice());
    let signature = hex_encode(&sig);
    let r = ApprovalRecord {
        id: p.id.clone(),
        address: p.address.clone(),
        amount: p.amount,
        fee: p.fee,
        expires_at,
        signature,
    };
    proof {
        assert forall|text: String, later: u64|
            text@ == hex_lower(ed25519_public(secret@)) && ed25519_public(secret@).len() == 32
                && ed25519_point_decodes(ed25519_public(secret@)) && later
                <= r.expires_at implies #[trigger] outcome(
            FileRead::Read(text),
            *p,
            FileRead::Read(r),
            later,
        ) == Outcome::Accepted by {
            lemma_signed_approval_accepted(r, secret@, *p, text, later);
        }
    }
    Ok(r)
}

// ---------------------------------------------------------------------------------------------
// Recorded proposals
// ---------------------------------------------------------------------------------------------

/// Where to record proposal `p` so that `zumbra approve <id>` can show the operator exactly
/// what they are signing: `proposals/<id>.json`, for a safe id only.
pub fn record_proposal(data_dir: &str, p: &Proposal) -> (res: Result<String, OperatorError>)
    ensures
        is_safe_id(p.id@) ==> (res matches Ok(path) && path@ == id_file(
            join_path(data_dir@, "proposals"@),
            p.id@,
        )),
        !is_safe_id(p.id@) ==> res == Err::<String, OperatorError>(
            OperatorError::InvalidProposalId,
        ),
{
    proposal_file(data_dir, p.id.as_str())
}

/// The recorded proposal `id`, from what reading its file gave: a read failure names the
/// proposal, a parse failure is passed on.
pub fn load_proposal(id: &str, read: FileRead<Proposal>) -> (res: Result<Proposal, OperatorError>)
    ensures
        !is_safe_id(id@) ==> res == Err::<Proposal, OperatorError>(
            OperatorError::InvalidProposalId,
        ),
        is_safe_id(id@) ==> match read {
            FileRead::Read(p) => res == Ok::<Proposal, OperatorError>(p),
            FileRead::Malformed(e) => res == Err::<Proposal, OperatorError>(
                OperatorError::Storage(e),
            ),
            FileRead::Failed(e) => match res {
                Err(OperatorError::NoRecordedProposal(i, why)) => i@ == id@ && why == e,
                _ => false,
            },
            FileRead::Absent => match res {
                Err(OperatorError::NoRecordedProposal(i, why)) => i@ == id@ && why@
                    == "not found"@,
                _ => false,
            },
        },
{
    if let Err(e) = safe_id(id) {
        return Err(e);
    }
    match read {
        FileRead::Read(p) => Ok(p),
        FileRead::Malformed(e) => Err(OperatorError::Storage(e)),
        FileRead::Failed(e) => Err(OperatorError::NoRecordedProposal(String::from_str(id), e)),
        FileRead::Absent => Err(
            OperatorError::NoRecordedProposal(String::from_str(id), String::from_str("not found")),
        ),
    }
}

// ---------------------------------------------------------------------------------------------
// Laws of the approval channel
// ---------------------------------------------------------------------------------------------

/// An approval is single-use: once a check accepts it (and its file is removed, as the verdict
/// asks), any later check of the same proposal finds no approval.
pub proof fn lemma_approval_single_use(
    operator_pub: FileRead<String>,
    p: Proposal,
    r: ApprovalRecord,
    now: u64,
    later: u64,
)
    requires
        outcome(operator_pub, p, FileRead::Read(r), now) == Outcome::Accepted,
    ensures
        outcome(operator_pub, p, FileRead::Absent, later) == Outcome::NoApproval,
{
}

/// An approval binds every field of the proposal: one that was for `p` is refused as a
/// mismatch for a proposal with the same id and a different address, amount or fee, and a
/// mismatch leaves the approval in place.
pub proof fn lemma_approval_binds_proposal(
    operator_pub: FileRead<String>,
    p: Proposal,
    q: Proposal,
    r: ApprovalRecord,
    now: u64,
)
    requires
        outcome(operator_pub, p, FileRead::Read(r), now) == Outcome::Accepted,
        q.id@ == p.id@,
        q.address@ != p.address@ || q.amount != p.amount || q.fee != p.fee,
    ensures
        outcome(operator_pub, q, FileRead::Read(r), now) == Outcome::Mismatch,
        outcome(operator_pub, q, FileRead::Read(r), now) != Outcome::Accepted,
        outcome(operator_pub, q, FileRead::Read(r), now) != Outcome::Expired,
{
}

/// An approval expires: one accepted at some time is refused as expired at any time past its
/// expiry, and accepted at any earlier time.
pub proof fn lemma_approval_expires(
    operator_pub: FileRead<String>,
    p: Proposal,
    r: ApprovalRecord,
    now: u64,
    later: u64,
)
    requires
        outcome(operator_pub, p, FileRead::Read(r), now) == Outcome::Accepted,
    ensures
        later > r.expires_at ==> outcome(operator_pub, p, FileRead::Read(r), later)
            == Outcome::Expired,
        later <= r.expires_at ==> outcome(operator_pub, p, FileRead::Read(r), later)
            == Outcome::Accepted,
{
}

/// What an acceptance rests on: the operator key decoded from `operator.pub`, the id is safe,
/// the stored approval names exactly the proposal, its signature verifies under that key over
/// the message for the proposal and the stored expiry, and the check ran no later than that
/// expiry.
pub proof fn lemma_accepted_means_signed(
    operator_pub: FileRead<String>,
    p: Proposal,
    stored: FileRead<ApprovalRecord>,
    now: u64,
)
    requires
        outcome(operator_pub, p, stored, now) == Outcome::Accepted,
    ensures
        operator_pub matches FileRead::Read(text) && decoded_public_key(text@) matches Some(pk)
            && stored matches FileRead::Read(r) && {
            let sig = encode_utf8(r.signature@);
            &&& is_safe_id(p.id@)
            &&& record_matches(r, p)
            &&& hex_decodable(sig)
            &&& hex_decoded(sig).len() == 64
            &&& ed25519_verifies(pk, message_bytes(p, r.expires_at), hex_decoded(sig))
            &&& now <= r.expires_at
        },
{
}

/// Without an operator key nothing is accepted: every check reports the missing key.
pub proof fn lemma_no_key_no_approval(p: Proposal, stored: FileRead<ApprovalRecord>, now: u64)
    ensures
        outcome(FileRead::Absent, p, stored, now) == Outcome::NoOperatorKey,
{
}

/// The message after its version line: the id, a newline, then the rest up to its last
/// newline.
proof fn lemma_message_shape(p: Proposal, e: u64)
    ensures
        message_text(p, e) == "zumbra-approval-v1\n"@ + (p.id@ + seq!['\n'] + (
        message_tail(p, e) + seq!['\n'])),
{
    reveal_strlit("\n");
    let pre = "zumbra-approval-v1\n"@;
    let nl = seq!['\n'];
    let t = message_tail(p, e);
    assert(message_text(p, e) =~= pre + (p.id@ + nl + (t + nl)));
}

/// The address, amount, fee and expiry lines of the message, without the final newline.
spec fn message_tail(p: Proposal, e: u64) -> Seq<char> {
    p.address@ + seq!['\n'] + decimal(p.amount as nat) + seq!['\n'] + decimal(p.fee as nat)
        + seq!['\n'] + decimal(e as nat)
}

/// A safe id holds no newline, so [`lemma_message_binds_every_field`] applies to every
/// proposal the approval channel signs or checks.
pub proof fn lemma_safe_id_no_newline(id: Seq<char>)
    requires
        is_safe_id(id),
    ensures
        no_newline(id),
{
    assert forall|i: int| 0 <= i < id.len() implies id[i] != '\n' by {
        assert(allowed_id_char(id[i]));
    }
}

/// The signed message binds every field: two proposals whose ids hold no newline and whose
/// messages are the same text have the same id, address, amount and fee, and the same expiry.
/// (The address may hold any characters.)
#[verifier::rlimit(30)]
pub proof fn lemma_message_binds_every_field(p: Proposal, e1: u64, q: Proposal, e2: u64)
    requires
        no_newline(p.id@),
        no_newline(q.id@),
        message_text(p, e1) == message_text(q, e2),
    ensures
        p.id@ == q.id@,
        p.address@ == q.address@,
        p.amount == q.amount,
        p.fee == q.fee,
        e1 == e2,
{
    let pre = "zumbra-approval-v1\n"@;
    let nl = seq!['\n'];
    lemma_message_shape(p, e1);
    lemma_message_shape(q, e2);
    let rp = message_tail(p, e1);
    let rq = message_tail(q, e2);
    let tp = p.id@ + nl + (rp + nl);
    let tq = q.id@ + nl + (rq + nl);
    assert(tp == tq) by {
        assert(tp =~= (pre + tp).subrange(pre.len() as int, (pre + tp).len() as int));
        assert(tq =~= (pre + tq).subrange(pre.len() as int, (pre + tq).len() as int));
    }
    lemma_split_first_newline(p.id@, rp + nl, q.id@, rq + nl);
    assert(rp == rq) by {
        assert(rp =~= (rp + nl).drop_last());
        assert(rq =~= (rq + nl).drop_last());
    }
    let (da, df, de) = (decimal(p.amount as nat), decimal(p.fee as nat), decimal(e1 as nat));
    let (qa, qf, qe) = (decimal(q.amount as nat), decimal(q.fee as nat), decimal(e2 as nat));
    lemma_decimal_no_newline(p.amount as nat);
    lemma_decimal_no_newline(p.fee as nat);
    lemma_decimal_no_newline(e1 as nat);
    lemma_decimal_no_newline(q.amount as nat);
    lemma_decimal_no_newline(q.fee as nat);
    lemma_decimal_no_newline(e2 as nat);
    let bp = p.address@ + nl + da;
    let bq = q.address@ + nl + qa;
    let ap = bp + nl + df;
    let aq = bq + nl + qf;
    lemma_split_last_newline(ap, de, aq, qe);
    lemma_split_last_newline(bp, df, bq, qf);
    lemma_split_last_newline(p.address@, da, q.address@, qa);
    lemma_decimal_injective(p.amount as nat, q.amount as nat);
    lemma_decimal_injective(p.fee as nat, q.fee as nat);
    lemma_decimal_injective(e1 as nat, e2 as nat);
}

/// The signed bytes bind every field: two proposals whose ids hold no newline and whose
/// messages are the same bytes are the same proposal, with the same expiry.
pub proof fn lemma_signed_bytes_bind_every_field(p: Proposal, e1: u64, q: Proposal, e2: u64)
    requires
        no_newline(p.id@),
        no_newline(q.id@),
        message_bytes(p, e1) == message_bytes(q, e2),
    ensures
        p.id@ == q.id@,
        p.address@ == q.address@,
        p.amount == q.amount,
        p.fee == q.fee,
        e1 == e2,
{
    vstd::utf8::encode_utf8_decode_utf8(message_text(p, e1));
    vstd::utf8::encode_utf8_decode_utf8(message_text(q, e2));
    lemma_message_binds_every_field(p, e1, q, e2);
}

/// Two names with different first characters name different paths in the same directory.
proof fn lemma_join_differs(d: Seq<char>, a: Seq<char>, b: Seq<char>)
    requires
        a.len() > 0,
        b.len() > 0,
        a[0] != b[0],
    ensures
        join_path(d, a) != join_path(d, b),
{
    let k: int = if d.len() == 0 {
        0
    } else if d.last() == '/' {
        d.len() as int
    } else {
        d.len() + 1int
    };
    assert(join_path(d, a)[k] == a[0]);
    assert(join_path(d, b)[k] == b[0]);
}

/// A file inside a subdirectory is that subdirectory's name, a slash and the file's name,
/// inside the parent.
proof fn lemma_join_nested(d: Seq<char>, n: Seq<char>, x: Seq<char>)
    requires
        n.len() > 0,
        n.last() != '/',
    ensures
        join_path(join_path(d, n), x) == join_path(d, n + seq!['/'] + x),
{
    let j = join_path(d, n);
    assert(j.len() > 0 && j.last() == n.last());
    if d.len() == 0 {
        assert(join_path(j, x) =~= join_path(d, n + seq!['/'] + x));
    } else if d.last() == '/' {
        assert(join_path(j, x) =~= join_path(d, n + seq!['/'] + x));
    } else {
        assert(join_path(j, x) =~= join_path(d, n + seq!['/'] + x));
    }
}

/// Recording a proposal touches nothing else of the approval channel: the file it names is
/// neither half of the operator key nor any approval file.
pub proof fn lemma_recorded_proposal_stays_apart(d: Seq<char>, id: Seq<char>, other_id: Seq<char>)
    ensures
        id_file(join_path(d, "proposals"@), id) != join_path(d, "operator.pub"@),
        id_file(join_path(d, "proposals"@), id) != join_path(d, "operator.key"@),
        id_file(join_path(d, "proposals"@), id) != id_file(join_path(d, "approvals"@), other_id),
{
    reveal_strlit("proposals");
    reveal_strlit("approvals");
    reveal_strlit("operator.pub");
    reveal_strlit("operator.key");
    let pname = "proposals"@ + seq!['/'] + (id + ".json"@);
    let aname = "approvals"@ + seq!['/'] + (other_id + ".json"@);
    lemma_join_nested(d, "proposals"@, id + ".json"@);
    lemma_join_nested(d, "approvals"@, other_id + ".json"@);
    assert(pname[0] == 'p');
    assert(aname[0] == 'a');
    lemma_join_differs(d, pname, "operator.pub"@);
    lemma_join_differs(d, pname, "operator.key"@);
    lemma_join_differs(d, pname, aname);
}

/// A safe id names a file inside its directory and nowhere else: `<id>.json` has no path
/// separator and is not `.` or `..`.
pub proof fn lemma_safe_id_stays_inside(id: Seq<char>)
    requires
        is_safe_id(id),
    ensures
        forall|i: int| 0 <= i < (id + ".json"@).len() ==> (id + ".json"@)[i] != '/',
        (id + ".json"@) != "."@,
        (id + ".json"@) != ".."@,
{
    reveal_strlit(".json");
    reveal_strlit(".");
    reveal_strlit("..");
    let name = id + ".json"@;
    assert forall|i: int| 0 <= i < name.len() implies name[i] != '/' by {
        if i < id.len() {
            assert(allowed_id_char(id[i]));
        }
    }
    assert(name.len() >= 6);
}

} // verus!
