//! The calls this library makes into ed25519-dalek, hex, rand, uuid, zcash_address and the
//! parts of std that vstd does not specify. Every item here is trusted: its contract is taken
//! from the called crate's source and documentation, not proved.
use ed25519_dalek::{Signer, Verifier};
use vstd::prelude::*;

verus! {

// ---------------------------------------------------------------------------------------------
// Hex (hex 0.4)
// ---------------------------------------------------------------------------------------------

/// The lower-case hex digit for a nibble.
pub open spec fn hex_digit(v: int) -> char {
    if v < 10 {
        (v + 48) as char
    } else {
        (v + 87) as char
    }
}

/// `hex::encode`: two lower-case digits per byte, high nibble first.
pub open spec fn hex_lower(bytes: Seq<u8>) -> Seq<char> {
    Seq::new(
        2 * bytes.len(),
        |i: int|
            if i % 2 == 0 {
                hex_digit(bytes[i / 2] as int / 16)
            } else {
                hex_digit(bytes[i / 2] as int % 16)
            },
    )
}

/// A byte that `hex::decode` accepts as a digit: `0-9`, `A-F` or `a-f`.
pub open spec fn is_hex_byte(c: u8) -> bool {
    (48 <= c && c <= 57) || (65 <= c && c <= 70) || (97 <= c && c <= 102)
}

/// The value of a hex digit byte.
pub open spec fn hex_nibble(c: u8) -> int {
    if c <= 57 {
        c - 48
    } else if c <= 70 {
        c - 55
    } else {
        c - 87
    }
}

/// The input that `hex::decode` accepts: an even number of digit bytes.
pub open spec fn hex_decodable(text: Seq<u8>) -> bool {
    text.len() % 2 == 0 && forall|i: int| 0 <= i < text.len() ==> is_hex_byte(#[trigger] text[i])
}

/// What `hex::decode` returns for accepted input: one byte per pair of digits.
pub open spec fn hex_decoded(text: Seq<u8>) -> Seq<u8> {
    Seq::new(
        text.len() / 2,
        |i: int| (16 * hex_nibble(text[2 * i]) + hex_nibble(text[2 * i + 1])) as u8,
    )
}

/// Calls `hex::encode`, which writes each byte as two lower-case hex digits, high nibble
/// first. The contract states exactly that.
#[verifier::external_body]
pub(crate) fn hex_encode(bytes: &[u8]) -> (res: String)
    ensures
        res@ == hex_lower(bytes@),
{
    hex::encode(bytes)
}

/// Calls `hex::decode`. Its source returns an error for an odd length or for any byte that is
/// not `0-9`, `A-F`, `a-f`, and otherwise one byte per digit pair. The contract states that;
/// the error's text (its `Display`) is not stated.
#[verifier::external_body]
pub(crate) fn hex_decode(text: &[u8]) -> (res: Result<Vec<u8>, String>)
    ensures
        res is Ok <==> hex_decodable(text@),
        res matches Ok(v) ==> v@ == hex_decoded(text@),
{
    hex::decode(text).map_err(|e| e.to_string())
}

// ---------------------------------------------------------------------------------------------
// Ed25519 (ed25519-dalek 2)
// ---------------------------------------------------------------------------------------------

/// The encoded verifying key that `SigningKey::verifying_key` derives from a 32-byte secret.
pub uninterp spec fn ed25519_public(secret: Seq<u8>) -> Seq<u8>;

/// The 64-byte signature that `Signer::sign` produces for a secret and a message.
pub uninterp spec fn ed25519_signature(secret: Seq<u8>, msg: Seq<u8>) -> Seq<u8>;

/// Whether `Verifier::verify` accepts a signature on a message under an encoded key.
pub uninterp spec fn ed25519_verifies(public: Seq<u8>, msg: Seq<u8>, sig: Seq<u8>) -> bool;

/// Whether `VerifyingKey::from_bytes` accepts 32 bytes (they decompress to a curve point).
pub uninterp spec fn ed25519_point_decodes(public: Seq<u8>) -> bool;

#[verifier::external_type_specification]
#[verifier::external_body]
pub struct ExVerifyingKey(ed25519_dalek::VerifyingKey);

/// A verifying key that decoded from the 32 bytes it keeps beside it. Only
/// [`decode_verifying_key`] builds one.
pub struct OperatorKey {
    key: ed25519_dalek::VerifyingKey,
    bytes: [u8; 32],
}

impl OperatorKey {
    /// The 32 bytes the key was decoded from.
    pub closed spec fn encoded(&self) -> Seq<u8> {
        self.bytes@
    }
}

/// Calls `VerifyingKey::from_bytes`, which fails exactly when the bytes do not decompress to a
/// curve point, and keeps the bytes with the key. The error's text is not stated.
#[verifier::external_body]
pub(crate) fn decode_verifying_key(bytes: [u8; 32]) -> (res: Result<OperatorKey, String>)
    ensures
        res is Ok <==> ed25519_point_decodes(bytes@),
        res matches Ok(k) ==> k.encoded() == bytes@,
{
    match ed25519_dalek::VerifyingKey::from_bytes(&bytes) {
        Ok(key) => Ok(OperatorKey { key, bytes }),
        Err(e) => Err(e.to_string()),
    }
}

/// Calls `Verifier::verify` of `VerifyingKey` on a signature built by `Signature::from_bytes`
/// (a copy of the 64 bytes). Verification is a function of the key, the message and the
/// signature alone; the contract names it.
#[verifier::external_body]
pub(crate) fn ed25519_verify(key: &OperatorKey, msg: &[u8], sig: &[u8; 64]) -> (ok: bool)
    ensures
        ok == ed25519_verifies(key.encoded(), msg@, sig@),
{
    key.key.verify(msg, &ed25519_dalek::Signature::from_bytes(sig)).is_ok()
}

/// Calls `Signature::from_slice`, which by its documentation fails exactly when the slice is
/// not 64 bytes long; the 64 bytes come back by `Signature::to_bytes`.
#[verifier::external_body]
pub(crate) fn signature_from_slice(bytes: &[u8]) -> (res: Result<[u8; 64], String>)
    ensures
        res is Ok <==> bytes@.len() == 64,
        res matches Ok(a) ==> a@ == bytes@,
{
    match ed25519_dalek::Signature::from_slice(bytes) {
        Ok(sig) => Ok(sig.to_bytes()),
        Err(e) => Err(e.to_string()),
    }
}

/// Calls `Signer::sign` of the `SigningKey` that `SigningKey::from_bytes` makes from the
/// secret. Besides naming the result, the contract states the fact of Ed25519 that the crate
/// documents: a signature made with a key verifies under that key's verifying key.
#[verifier::external_body]
pub(crate) fn ed25519_sign(secret: &[u8; 32], msg: &[u8]) -> (sig: [u8; 64])
    ensures
        sig@ == ed25519_signature(secret@, msg@),
        ed25519_verifies(ed25519_public(secret@), msg@, sig@),
{
    ed25519_dalek::SigningKey::from_bytes(secret).sign(msg).to_bytes()
}

/// Calls `SigningKey::verifying_key` and returns its 32-byte encoding; a derived verifying
/// key is a curve point, so its encoding decodes again.
#[verifier::external_body]
pub(crate) fn ed25519_public_key(secret: &[u8; 32]) -> (public: [u8; 32])
    ensures
        public@ == ed25519_public(secret@),
        ed25519_point_decodes(public@),
{
    ed25519_dalek::SigningKey::from_bytes(secret).verifying_key().to_bytes()
}

// ---------------------------------------------------------------------------------------------
// Randomness (rand 0.8, uuid 1)
// ---------------------------------------------------------------------------------------------

/// Calls `rand::random` for 32 bytes from the thread-local generator. Nothing is stated of
/// the bytes: they are chance.
#[verifier::external_body]
pub(crate) fn random_secret() -> (secret: [u8; 32]) {
    rand::random()
}

/// A character of a UUID's hyphenated lower-case text: `0-9`, `a-f` or `-`.
pub open spec fn uuid_text_char(c: char) -> bool {
    ('0' <= c && c <= '9') || ('a' <= c && c <= 'f') || c == '-'
}

/// Calls `uuid::Uuid::new_v4` and renders it with `to_string`, which writes the hyphenated
/// lower-case form: 32 hex digits and 4 dashes. The digits are chance; only that shape is
/// stated.
#[verifier::external_body]
pub(crate) fn fresh_proposal_id() -> (id: String)
    ensures
        id@.len() == 36,
        forall|i: int| 0 <= i < 36 ==> uuid_text_char(#[trigger] id@[i]),
{
    uuid::Uuid::new_v4().to_string()
}

// ---------------------------------------------------------------------------------------------
// Zcash addresses (zcash_address)
// ---------------------------------------------------------------------------------------------

/// Whether `str::parse::<ZcashAddress>` accepts the text.
pub uninterp spec fn zcash_address_parses(text: Seq<char>) -> bool;

/// Calls `str::parse::<zcash_address::ZcashAddress>`; whether it succeeds is a function of the
/// text alone, which the contract names.
#[verifier::external_body]
pub(crate) fn parses_as_zcash_address(text: &str) -> (ok: bool)
    ensures
        ok == zcash_address_parses(text@),
{
    text.parse::<zcash_address::ZcashAddress>().is_ok()
}

// ---------------------------------------------------------------------------------------------
// std: the clock
// ---------------------------------------------------------------------------------------------

#[verifier::external_type_specification]
#[verifier::external_body]
pub struct ExSystemTime(std::time::SystemTime);

#[verifier::external_type_specification]
#[verifier::external_body]
pub struct ExSystemTimeError(std::time::SystemTimeError);

/// Calls `SystemTime::now`. Nothing is stated: it is the time.
#[verifier::external_body]
pub(crate) fn system_now() -> (t: std::time::SystemTime) {
    std::time::SystemTime::now()
}

/// Calls `SystemTime::duration_since` with `UNIX_EPOCH`; it fails when the clock reads a time
/// before the epoch. Nothing is stated: it rests on the clock.
#[verifier::external_body]
pub(crate) fn since_unix_epoch(t: &std::time::SystemTime) -> (d: Result<
    core::time::Duration,
    std::time::SystemTimeError,
>) {
    t.duration_since(std::time::UNIX_EPOCH)
}

/// Calls `Duration::as_secs`, the whole seconds of a duration. The duration is opaque here,
/// so nothing is stated.
#[verifier::external_body]
pub(crate) fn whole_seconds(d: &core::time::Duration) -> (secs: u64) {
    d.as_secs()
}

} // verus!
