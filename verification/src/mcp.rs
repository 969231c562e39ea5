//! The decisions of the agent-facing MCP server: the error code a failure is reported with,
//! where the signing seed came from, what kind of address a string is, and the signing session
//! that holds the seed, the lock and the one send the agent has reviewed.
use vstd::prelude::*;

use crate::approval::{allowed_id_char, is_safe_id};
use crate::primitives::{
    fresh_proposal_id, parses_as_zcash_address, uuid_text_char, zcash_address_parses,
};
use crate::text::{contains, same_text, seq_contains, seq_starts_with, starts_with};
use crate::tools::copy_send;
use crate::wallet::{is_mnemonic_export, is_mnemonic_text};

verus! {

// ---------------------------------------------------------------------------------------------
// Error codes
// ---------------------------------------------------------------------------------------------

/// The deterministic error codes of tool responses.
#[derive(Debug, Clone, PartialEq, Eq)]
pub enum ErrorCode {
    Success,
    InsufficientFunds,
    SyncRequired,
    PolicyExceeded,
    ApprovalRequired,
    AddressNotAllowed,
    WalletLocked,
    NetworkTimeout,
    InvalidProposal,
    ContextRequired,
    InternalError,
}

/// The text of an error code as it appears in a tool response.
pub open spec fn code_text(c: ErrorCode) -> Seq<char> {
    match c {
        ErrorCode::Success => "SUCCESS"@,
        ErrorCode::InsufficientFunds => "INSUFFICIENT_FUNDS"@,
        ErrorCode::SyncRequired => "SYNC_REQUIRED"@,
        ErrorCode::PolicyExceeded => "POLICY_EXCEEDED"@,
        ErrorCode::ApprovalRequired => "APPROVAL_REQUIRED"@,
        ErrorCode::AddressNotAllowed => "ADDRESS_NOT_ALLOWED"@,
        ErrorCode::WalletLocked => "WALLET_LOCKED"@,
        ErrorCode::NetworkTimeout => "NETWORK_TIMEOUT"@,
        ErrorCode::InvalidProposal => "INVALID_PROPOSAL"@,
        ErrorCode::ContextRequired => "CONTEXT_REQUIRED"@,
        ErrorCode::InternalError => "INTERNAL_ERROR"@,
    }
}

impl ErrorCode {
    /// The code's text.
    pub fn as_str(&self) -> (s: &'static str)
        ensures
            s@ == code_text(*self),
    {
        match self {
            ErrorCode::Success => "SUCCESS",
            ErrorCode::InsufficientFunds => "INSUFFICIENT_FUNDS",
            ErrorCode::SyncRequired => "SYNC_REQUIRED",
            ErrorCode::PolicyExceeded => "POLICY_EXCEEDED",
            ErrorCode::ApprovalRequired => "APPROVAL_REQUIRED",
            ErrorCode::AddressNotAllowed => "ADDRESS_NOT_ALLOWED",
            ErrorCode::WalletLocked => "WALLET_LOCKED",
            ErrorCode::NetworkTimeout => "NETWORK_TIMEOUT",
            ErrorCode::InvalidProposal => "INVALID_PROPOSAL",
            ErrorCode::ContextRequired => "CONTEXT_REQUIRED",
            ErrorCode::InternalError => "INTERNAL_ERROR",
        }
    }
}

/// The code for an error message, by the first of these that the message contains:
/// `APPROVAL_REQUIRED`; `POLICY_EXCEEDED` or `RATE_LIMITED`; `ADDRESS_NOT_ALLOWED`;
/// `CONTEXT_REQUIRED`; `Insufficient` or `insufficient`; `No pending proposal` or
/// `INVALID_PROPOSAL`; `Engine not initialized` or `not synced`; `transport`, `timeout` or
/// `connection`. Anything else is an internal error.
pub open spec fn classify(msg: Seq<char>) -> ErrorCode {
    if seq_contains(msg, "APPROVAL_REQUIRED"@) {
        ErrorCode::ApprovalRequired
    } else if seq_contains(msg, "POLICY_EXCEEDED"@) || seq_contains(msg, "RATE_LIMITED"@) {
        ErrorCode::PolicyExceeded
    } else if seq_contains(msg, "ADDRESS_NOT_ALLOWED"@) {
        ErrorCode::AddressNotAllowed
    } else if seq_contains(msg, "CONTEXT_REQUIRED"@) {
        ErrorCode::ContextRequired
    } else if seq_contains(msg, "Insufficient"@) || seq_contains(msg, "insufficient"@) {
        ErrorCode::InsufficientFunds
    } else if seq_contains(msg, "No pending proposal"@) || seq_contains(msg, "INVALID_PROPOSAL"@) {
        ErrorCode::InvalidProposal
    } else if seq_contains(msg, "Engine not initialized"@) || seq_contains(msg, "not synced"@) {
        ErrorCode::SyncRequired
    } else if seq_contains(msg, "transport"@) || seq_contains(msg, "timeout"@) || seq_contains(
        msg,
        "connection"@,
    ) {
        ErrorCode::NetworkTimeout
    } else {
        ErrorCode::InternalError
    }
}

/// The error code for a failure, from its full message (the error and its causes).
pub fn classify_error(message: &str) -> (code: ErrorCode)
    ensures
        code == classify(message@),
        !earlier_keywords(message@, 7) && (seq_contains(message@, "transport"@) || seq_contains(
            message@,
            "timeout"@,
        ) || seq_contains(message@, "connection"@)) ==> code == ErrorCode::NetworkTimeout,
        !earlier_keywords(message@, 8) ==> code == ErrorCode::InternalError,
{
    proof {
        lemma_failure_codes(message@);
    }
    if contains(message, "APPROVAL_REQUIRED") {
        return ErrorCode::ApprovalRequired;
    }
    if contains(message, "POLICY_EXCEEDED") || contains(message, "RATE_LIMITED") {
        return ErrorCode::PolicyExceeded;
    }
    if contains(message, "ADDRESS_NOT_ALLOWED") {
        return ErrorCode::AddressNotAllowed;
    }
    if contains(message, "CONTEXT_REQUIRED") {
        return ErrorCode::ContextRequired;
    }
    if contains(message, "Insufficient") || contains(message, "insufficient") {
        return ErrorCode::InsufficientFunds;
    }
    if contains(message, "No pending proposal") || contains(message, "INVALID_PROPOSAL") {
        return ErrorCode::InvalidProposal;
    }
    if contains(message, "Engine not initialized") || contains(message, "not synced") {
        return ErrorCode::SyncRequired;
    }
    if contains(message, "transport") || contains(message, "timeout") || contains(
        message,
        "connection",
    ) {
        return ErrorCode::NetworkTimeout;
    }
    ErrorCode::InternalError
}

/// The kinds of spending-policy violation that have a code of their own.
#[derive(Debug, Clone, PartialEq, Eq)]
pub enum ViolationKind {
    AddressNotAllowed,
    ContextRequired,
    ApprovalRequired,
    /// A cap, the daily limit or the rate limit.
    Exceeded,
}

/// The code a policy refusal is reported with.
pub fn violation_code(kind: &ViolationKind) -> (code: ErrorCode)
    ensures
        code == match kind {
            ViolationKind::AddressNotAllowed => ErrorCode::AddressNotAllowed,
            ViolationKind::ContextRequired => ErrorCode::ContextRequired,
            ViolationKind::ApprovalRequired => ErrorCode::ApprovalRequired,
            ViolationKind::Exceeded => ErrorCode::PolicyExceeded,
        },
{
    match kind {
        ViolationKind::AddressNotAllowed => ErrorCode::AddressNotAllowed,
        ViolationKind::ContextRequired => ErrorCode::ContextRequired,
        ViolationKind::ApprovalRequired => ErrorCode::ApprovalRequired,
        ViolationKind::Exceeded => ErrorCode::PolicyExceeded,
    }
}

// ---------------------------------------------------------------------------------------------
// Seed source
// ---------------------------------------------------------------------------------------------

/// Where the signing seed of the server came from.
#[derive(Debug, Clone, PartialEq, Eq)]
pub enum SeedSource {
    OwsVault,
    Nowhere,
}

impl SeedSource {
    /// The source's name in the wallet status.
    pub fn label(&self) -> (s: &'static str)
        ensures
            s@ == match self {
                SeedSource::OwsVault => "ows-vault"@,
                SeedSource::Nowhere => "none"@,
            },
    {
        match self {
            SeedSource::OwsVault => "ows-vault",
            SeedSource::Nowhere => "none",
        }
    }
}

/// The server's signing seed from what exporting the vault wallet gave: a mnemonic export is
/// the seed, from the vault; a failed export, or a private key or JSON key file, leaves the
/// server without a seed (signing tools then refuse).
pub fn resolve_seed(exported: Result<String, String>) -> (res: (Option<String>, SeedSource))
    ensures
        match exported {
            Ok(t) => if is_mnemonic_text(t@) {
                res == (Some(t), SeedSource::OwsVault)
            } else {
                res == (None::<String>, SeedSource::Nowhere)
            },
            Err(_) => res == (None::<String>, SeedSource::Nowhere),
        },
{
    match exported {
        Ok(t) => if is_mnemonic_export(t.as_str()) {
            (Some(t), SeedSource::OwsVault)
        } else {
            (None, SeedSource::Nowhere)
        },
        Err(_) => (None, SeedSource::Nowhere),
    }
}

// ---------------------------------------------------------------------------------------------
// Address validation
// ---------------------------------------------------------------------------------------------

/// The kind of a Zcash address by its prefix: `zs` or `ztestsapling` is Sapling; `t1`, `t3`
/// or `tm` transparent; `u1` or `utest` unified; anything else unknown.
pub open spec fn address_kind(a: Seq<char>) -> Seq<char> {
    if seq_starts_with(a, "zs"@) || seq_starts_with(a, "ztestsapling"@) {
        "sapling"@
    } else if seq_starts_with(a, "t1"@) || seq_starts_with(a, "t3"@) || seq_starts_with(
        a,
        "tm"@,
    ) {
        "transparent"@
    } else if seq_starts_with(a, "u1"@) || seq_starts_with(a, "utest"@) {
        "unified"@
    } else {
        "unknown"@
    }
}

/// The answer to a request to validate an address.
#[derive(Debug, Clone, PartialEq, Eq)]
pub struct AddressValidation {
    pub valid: bool,
    pub address: String,
    pub address_type: Option<String>,
}

fn address_kind_of(address: &str) -> (kind: String)
    ensures
        kind@ == address_kind(address@),
{
    if starts_with(address, "zs") || starts_with(address, "ztestsapling") {
        String::from_str("sapling")
    } else if starts_with(address, "t1") || starts_with(address, "t3") || starts_with(
        address,
        "tm",
    ) {
        String::from_str("transparent")
    } else if starts_with(address, "u1") || starts_with(address, "utest") {
        String::from_str("unified")
    } else {
        String::from_str("unknown")
    }
}

/// Validates a Zcash address: valid when `zcash_address` parses it, and then typed by its
/// prefix.
pub fn validate_address(address: String) -> (v: AddressValidation)
    ensures
        v.valid == zcash_address_parses(address@),
        v.address == address,
        v.valid ==> (v.address_type matches Some(t) && t@ == address_kind(address@)),
        !v.valid ==> v.address_type is None,
        v.valid && (seq_starts_with(address@, "u1"@) || seq_starts_with(address@, "utest"@)) ==> (
        v.address_type matches Some(t) && t@ == "unified"@),
        v.valid && (seq_starts_with(address@, "zs"@) || seq_starts_with(
            address@,
            "ztestsapling"@,
        )) ==> (v.address_type matches Some(t) && t@ == "sapling"@),
        v.valid && (seq_starts_with(address@, "t1"@) || seq_starts_with(address@, "t3"@)
            || seq_starts_with(address@, "tm"@)) ==> (v.address_type matches Some(t) && t@
            == "transparent"@),
{
    proof {
        lemma_address_types_by_prefix(address@);
    }
    if parses_as_zcash_address(address.as_str()) {
        let kind = address_kind_of(address.as_str());
        AddressValidation { valid: true, address, address_type: Some(kind) }
    } else {
        AddressValidation { valid: false, address, address_type: None }
    }
}

// ---------------------------------------------------------------------------------------------
// The signing session
// ---------------------------------------------------------------------------------------------

/// The one send the agent has reviewed and may confirm.
#[derive(Debug, Clone, PartialEq, Eq)]
pub struct ReviewedSend {
    pub id: String,
    pub address: String,
    pub amount: u64,
    pub fee: u64,
    pub context_id: Option<String>,
}

/// A refusal: a code and the message that goes with it.
#[derive(Debug, Clone, PartialEq, Eq)]
pub struct Refusal {
    pub code: ErrorCode,
    pub message: String,
}

/// What the seed is wanted for; the refusal messages differ.
#[derive(Debug, Clone, PartialEq, Eq)]
pub enum SeedPurpose {
    /// Signing a send or a paywall payment.
    Send,
    /// Deriving a transfer plan.
    Plan,
}

/// The refusal of a locked wallet.
pub open spec fn locked_text(purpose: SeedPurpose) -> Seq<char> {
    match purpose {
        SeedPurpose::Send => "Wallet is locked. Ask the operator to unlock."@,
        SeedPurpose::Plan => "Unlock the wallet to derive the SDK plan."@,
    }
}

/// The refusal of a server that holds no seed.
pub open spec fn no_seed_text(purpose: SeedPurpose) -> Seq<char> {
    match purpose {
        SeedPurpose::Send =>
            "No seed available. Run `zumbra wallet init` to create an encrypted vault, then restart the server from the trusted operator terminal."@,
        SeedPurpose::Plan => "No signing seed is available for plan derivation."@,
    }
}

/// The server's signing state: whether it is locked, the seed it holds, and the reviewed send.
/// A locked session never holds a seed.
#[derive(Debug)]
pub struct SigningSession<S> {
    locked: bool,
    seed: Option<S>,
    reviewed: Option<ReviewedSend>,
}

/// Two optional context ids are the same.
pub open spec fn same_context(a: Option<String>, b: Option<String>) -> bool {
    match (a, b) {
        (None, None) => true,
        (Some(x), Some(y)) => x@ == y@,
        _ => false,
    }
}

fn same_context_exec(a: &Option<String>, b: &Option<String>) -> (r: bool)
    ensures
        r == same_context(*a, *b),
{
    match (a, b) {
        (None, None) => true,
        (Some(x), Some(y)) => *x == *y,
        _ => false,
    }
}

/// The reviewed send, if any, is the one with id `id` and context `ctx`.
pub open spec fn review_matches(reviewed: Option<ReviewedSend>, id: Seq<char>, ctx: Option<
    String,
>) -> bool {
    match reviewed {
        Some(r) => r.id@ == id && same_context(r.context_id, ctx),
        None => false,
    }
}

impl<S> SigningSession<S> {
    /// A locked session holds no seed.
    #[verifier::type_invariant]
    closed spec fn locked_holds_no_seed(&self) -> bool {
        self.locked ==> self.seed is None
    }

    /// Whether the wallet is locked.
    pub closed spec fn locked_now(&self) -> bool {
        self.locked
    }

    /// The seed the session holds.
    pub closed spec fn seed_held(&self) -> Option<S> {
        self.seed
    }

    /// The send the agent has reviewed and may confirm.
    pub closed spec fn review(&self) -> Option<ReviewedSend> {
        self.reviewed
    }

    /// A fresh session, unlocked, with the seed the server started with and no reviewed send.
    pub fn new(seed: Option<S>) -> (s: Self)
        ensures
            !s.locked_now(),
            s.seed_held() == seed,
            s.review() is None,
    {
        SigningSession { locked: false, seed, reviewed: None }
    }

    /// Whether the wallet is locked.
    pub fn is_locked(&self) -> (b: bool)
        ensures
            b == self.locked_now(),
            b ==> self.seed_held() is None,
    {
        proof {
            use_type_invariant(self);
        }
        self.locked
    }

    /// The seed the session holds, if any.
    pub fn seed(&self) -> (s: &Option<S>)
        ensures
            *s == self.seed_held(),
            self.locked_now() ==> s is None,
    {
        proof {
            use_type_invariant(self);
        }
        &self.seed
    }

    /// The send under review, if any.
    pub fn reviewed(&self) -> (r: &Option<ReviewedSend>)
        ensures
            *r == self.review(),
    {
        &self.reviewed
    }

    /// Locks the wallet: the reviewed send is dropped in any case; an unlocked wallet forgets
    /// its seed and stays locked until the operator restarts the server. Afterwards the session
    /// is locked and holds no seed, whatever it was before.
    pub fn lock(&mut self) -> (res: Result<(), Refusal>)
        ensures
            final(self).review() is None,
            final(self).locked_now(),
            final(self).seed_held() is None,
            old(self).locked_now() ==> (res matches Err(r) && r.code == ErrorCode::WalletLocked
                && r.message@ == "Wallet is already locked."@),
            !old(self).locked_now() ==> res is Ok,
            session_step(*old(self), *final(self)),
    {
        proof {
            use_type_invariant(&*self);
        }
        self.reviewed = None;
        if self.locked {
            return Err(
                Refusal {
                    code: ErrorCode::WalletLocked,
                    message: String::from_str("Wallet is already locked."),
                },
            );
        }
        self.seed = None;
        self.locked = true;
        Ok(())
    }

    /// Drops the reviewed send, as every new proposal and every payment does first.
    pub fn clear_review(&mut self)
        ensures
            session_step(*old(self), *final(self)),
            final(self).review() is None,
            final(self).locked_now() == old(self).locked_now(),
            final(self).seed_held() == old(self).seed_held(),
    {
        proof {
            use_type_invariant(&*self);
        }
        self.reviewed = None;
    }

    /// The seed, when the wallet is unlocked and holds one.
    pub fn seed_for(&self, purpose: SeedPurpose) -> (res: Result<&S, Refusal>)
        ensures
            self.locked_now() ==> (res matches Err(r) && r.code == ErrorCode::WalletLocked
                && r.message@ == locked_text(purpose)),
            !self.locked_now() && self.seed_held() is None ==> (res matches Err(r) && r.code
                == ErrorCode::WalletLocked && r.message@ == no_seed_text(purpose)),
            !self.locked_now() && self.seed_held() is Some ==> (res matches Ok(s)
                && self.seed_held() == Some(*s)),
    {
        if self.locked {
            let message = match purpose {
                SeedPurpose::Send => String::from_str(
                    "Wallet is locked. Ask the operator to unlock.",
                ),
                SeedPurpose::Plan => String::from_str("Unlock the wallet to derive the SDK plan."),
            };
            return Err(Refusal { code: ErrorCode::WalletLocked, message });
        }
        match &self.seed {
            Some(s) => Ok(s),
            None => {
                let message = match purpose {
                    SeedPurpose::Send => String::from_str(
                        "No seed available. Run `zumbra wallet init` to create an encrypted vault, then restart the server from the trusted operator terminal.",
                    ),
                    SeedPurpose::Plan => String::from_str(
                        "No signing seed is available for plan derivation.",
                    ),
                };
                Err(Refusal { code: ErrorCode::WalletLocked, message })
            },
        }
    }

    /// Records the send the agent has just reviewed under a fresh, unpredictable id, replacing
    /// any earlier one, and returns the id.
    pub fn begin_review(
        &mut self,
        address: String,
        amount: u64,
        fee: u64,
        context_id: Option<String>,
    ) -> (id: String)
        ensures
            session_step(*old(self), *final(self)),
            final(self).review() == Some(
                ReviewedSend { id, address, amount, fee, context_id },
            ),
            is_safe_id(id@),
            final(self).locked_now() == old(self).locked_now(),
            final(self).seed_held() == old(self).seed_held(),
    {
        proof {
            use_type_invariant(&*self);
        }
        let id = fresh_proposal_id();
        proof {
            assert forall|i: int| 0 <= i < id@.len() implies allowed_id_char(#[trigger] id@[i]) by {
                assert(uuid_text_char(id@[i]));
            }
        }
        self.reviewed = Some(
            ReviewedSend { id: id.clone(), address, amount, fee, context_id },
        );
        id
    }

    /// Takes the reviewed send for confirmation when its id and context are the ones given.
    /// Otherwise the reviewed send stays as it was and the confirmation is refused.
    pub fn take_reviewed(&mut self, proposal_id: &str, context_id: &Option<String>) -> (res: Result<
        ReviewedSend,
        Refusal,
    >)
        ensures
            session_step(*old(self), *final(self)),
            final(self).locked_now() == old(self).locked_now(),
            final(self).seed_held() == old(self).seed_held(),
            review_matches(old(self).review(), proposal_id@, *context_id) ==> (
            final(self).review() is None && (res matches Ok(r) && old(self).review() == Some(r))),
            !review_matches(old(self).review(), proposal_id@, *context_id) ==> (
            final(self).review() == old(self).review() && (res matches Err(r) && r.code
                == ErrorCode::InvalidProposal && r.message@
                == "Proposal replaced or context changed. Review again."@)),
            (old(self).review() matches Some(r) && ((r.context_id matches Some(a)
                && *context_id matches Some(b) && a@ != b@) || (r.context_id is Some)
                != (context_id is Some))) ==> (res is Err && final(self).review() == old(
                self,
            ).review()),
    {
        proof {
            use_type_invariant(&*self);
            if self.reviewed is Some {
                lemma_review_needs_same_id_and_context(
                    self.reviewed->0,
                    proposal_id@,
                    *context_id,
                );
            }
        }
        let matches = match &self.reviewed {
            Some(r) => same_text(r.id.as_str(), proposal_id) && same_context_exec(&r.context_id, context_id),
            None => false,
        };
        if !matches {
            return Err(
                Refusal {
                    code: ErrorCode::InvalidProposal,
                    message: String::from_str(
                        "Proposal replaced or context changed. Review again.",
                    ),
                },
            );
        }
        let taken = match &self.reviewed {
            Some(r) => Some(copy_send(r)),
            None => None,
        };
        self.reviewed = None;
        match taken {
            Some(r) => Ok(r),
            None => Err(
                Refusal {
                    code: ErrorCode::InvalidProposal,
                    message: String::from_str(
                        "Proposal replaced or context changed. Review again.",
                    ),
                },
            ),
        }
    }
}

/// One call on the session: every method keeps the lock and the seed as they are, except
/// `lock`, which leaves the session locked and, if it was unlocked, without a seed.
pub open spec fn session_step<S>(before: SigningSession<S>, after: SigningSession<S>) -> bool {
    ||| after.locked_now() == before.locked_now() && after.seed_held() == before.seed_held()
    ||| after.locked_now() && after.seed_held() is None
}

/// A lock is permanent: once the session is locked and holds no seed, it stays locked and
/// without a seed through any sequence of later calls (only a restart, a new session, brings
/// a seed back), so every later request for the seed is refused. A locked session never holds
/// a seed (its type invariant), so this holds from every locked session there is.
pub proof fn lemma_lock_is_permanent<S>(trace: Seq<SigningSession<S>>)
    requires
        trace.len() > 0,
        trace[0].locked_now(),
        trace[0].seed_held() is None,
        forall|i: int| 0 <= i < trace.len() - 1 ==> session_step(#[trigger] trace[i], trace[i + 1]),
    ensures
        forall|i: int| 0 <= i < trace.len() ==> #[trigger] trace[i].locked_now()
            && trace[i].seed_held() is None,
    decreases trace.len(),
{
    if trace.len() > 1 {
        let rest = trace.drop_first();
        assert(session_step(trace[0], trace[1]));
        assert forall|i: int| 0 <= i < rest.len() - 1 implies session_step(
            #[trigger] rest[i],
            rest[i + 1],
        ) by {
            assert(rest[i] == trace[i + 1]);
            assert(rest[i + 1] == trace[i + 2]);
            assert(session_step(trace[i + 1], trace[i + 2]));
        }
        lemma_lock_is_permanent(rest);
        assert forall|i: int| 0 <= i < trace.len() implies #[trigger] trace[i].locked_now()
            && trace[i].seed_held() is None by {
            if i > 0 {
                assert(trace[i] == rest[i - 1]);
            }
        }
    }
}

/// A reviewed send is confirmed at most once: after it is taken nothing is left to match.
pub proof fn lemma_reviewed_send_single_use(id: Seq<char>, ctx: Option<String>)
    ensures
        !review_matches(None, id, ctx),
{
}

/// A replaced proposal cannot be confirmed: once a new send is under review, any other id is
/// refused, whatever its context.
pub proof fn lemma_replaced_proposal_refused(
    current: ReviewedSend,
    old_id: Seq<char>,
    ctx: Option<String>,
)
    requires
        old_id != current.id@,
    ensures
        !review_matches(Some(current), old_id, ctx),
{
}

// ---------------------------------------------------------------------------------------------
// Laws of the server's decisions
// ---------------------------------------------------------------------------------------------

/// A reviewed send is confirmed only under the proposal id and the context it was reviewed
/// under: a different id, a different context text, or a context where there was none (or
/// none where there was one) does not match; the same id and the same context (or none on
/// both sides) does.
pub proof fn lemma_review_needs_same_id_and_context(
    r: ReviewedSend,
    id: Seq<char>,
    ctx: Option<String>,
)
    ensures
        id != r.id@ ==> !review_matches(Some(r), id, ctx),
        (r.context_id matches Some(a) && ctx matches Some(b) && a@ != b@) ==> !review_matches(
            Some(r),
            id,
            ctx,
        ),
        (r.context_id is Some) != (ctx is Some) ==> !review_matches(Some(r), id, ctx),
        (r.context_id is None && ctx is None) ==> (id == r.id@ ==> review_matches(
            Some(r),
            id,
            ctx,
        )),
        (r.context_id matches Some(a) && ctx matches Some(b) && a@ == b@) ==> (id == r.id@
            ==> review_matches(Some(r), id, ctx)),
{
}

/// Addresses are typed by their prefix: one beginning `zs` or `ztestsapling` is Sapling, `t1`,
/// `t3` or `tm` transparent, `u1` or `utest` unified, and one with none of these prefixes is of
/// unknown type.
pub proof fn lemma_address_types_by_prefix(a: Seq<char>)
    ensures
        (seq_starts_with(a, "zs"@) || seq_starts_with(a, "ztestsapling"@)) ==> address_kind(a)
            == "sapling"@,
        (seq_starts_with(a, "t1"@) || seq_starts_with(a, "t3"@) || seq_starts_with(a, "tm"@))
            ==> address_kind(a) == "transparent"@,
        (seq_starts_with(a, "u1"@) || seq_starts_with(a, "utest"@)) ==> address_kind(a)
            == "unified"@,
        !(seq_starts_with(a, "zs"@) || seq_starts_with(a, "ztestsapling"@) || seq_starts_with(
            a,
            "t1"@,
        ) || seq_starts_with(a, "t3"@) || seq_starts_with(a, "tm"@) || seq_starts_with(a, "u1"@)
            || seq_starts_with(a, "utest"@)) ==> address_kind(a) == "unknown"@,
{
    reveal_strlit("zs");
    reveal_strlit("ztestsapling");
    reveal_strlit("t1");
    reveal_strlit("t3");
    reveal_strlit("tm");
    reveal_strlit("u1");
    reveal_strlit("utest");
    if seq_starts_with(a, "t1"@) || seq_starts_with(a, "t3"@) || seq_starts_with(a, "tm"@) {
        assert(a.subrange(0, 2)[0] == 't');
        assert(a[0] == 't');
        assert(!seq_starts_with(a, "zs"@)) by {
            if seq_starts_with(a, "zs"@) {
                assert(a.subrange(0, 2)[0] == 'z');
            }
        }
        assert(!seq_starts_with(a, "ztestsapling"@)) by {
            if seq_starts_with(a, "ztestsapling"@) {
                assert(a.subrange(0, 12)[0] == 'z');
            }
        }
    }
    if seq_starts_with(a, "u1"@) || seq_starts_with(a, "utest"@) {
        if seq_starts_with(a, "u1"@) {
            assert(a.subrange(0, 2)[0] == 'u');
        } else {
            assert(a.subrange(0, 5)[0] == 'u');
        }
        assert(a[0] == 'u');
        assert(!seq_starts_with(a, "zs"@)) by {
            if seq_starts_with(a, "zs"@) {
                assert(a.subrange(0, 2)[0] == 'z');
            }
        }
        assert(!seq_starts_with(a, "ztestsapling"@)) by {
            if seq_starts_with(a, "ztestsapling"@) {
                assert(a.subrange(0, 12)[0] == 'z');
            }
        }
        assert(!seq_starts_with(a, "t1"@)) by {
            if seq_starts_with(a, "t1"@) {
                assert(a.subrange(0, 2)[0] == 't');
            }
        }
        assert(!seq_starts_with(a, "t3"@)) by {
            if seq_starts_with(a, "t3"@) {
                assert(a.subrange(0, 2)[0] == 't');
            }
        }
        assert(!seq_starts_with(a, "tm"@)) by {
            if seq_starts_with(a, "tm"@) {
                assert(a.subrange(0, 2)[0] == 't');
            }
        }
    }
}

/// The code a failure is reported with, by the keywords its message holds, the earlier ones in
/// this order winning: `APPROVAL_REQUIRED` gives APPROVAL_REQUIRED; `POLICY_EXCEEDED` or
/// `RATE_LIMITED` gives POLICY_EXCEEDED; `ADDRESS_NOT_ALLOWED` and `CONTEXT_REQUIRED` give
/// their codes; `Insufficient` or `insufficient` gives INSUFFICIENT_FUNDS; `No pending proposal`
/// or `INVALID_PROPOSAL` gives INVALID_PROPOSAL; `Engine not initialized` or `not synced` gives
/// SYNC_REQUIRED; `transport`, `timeout` or `connection` gives NETWORK_TIMEOUT; anything else
/// is an INTERNAL_ERROR.
pub proof fn lemma_failure_codes(m: Seq<char>)
    ensures
        seq_contains(m, "APPROVAL_REQUIRED"@) ==> classify(m) == ErrorCode::ApprovalRequired,
        !seq_contains(m, "APPROVAL_REQUIRED"@) && (seq_contains(m, "POLICY_EXCEEDED"@)
            || seq_contains(m, "RATE_LIMITED"@)) ==> classify(m) == ErrorCode::PolicyExceeded,
        !earlier_keywords(m, 2) && seq_contains(m, "ADDRESS_NOT_ALLOWED"@) ==> classify(m)
            == ErrorCode::AddressNotAllowed,
        !earlier_keywords(m, 3) && seq_contains(m, "CONTEXT_REQUIRED"@) ==> classify(m)
            == ErrorCode::ContextRequired,
        !earlier_keywords(m, 4) && (seq_contains(m, "Insufficient"@) || seq_contains(
            m,
            "insufficient"@,
        )) ==> classify(m) == ErrorCode::InsufficientFunds,
        !earlier_keywords(m, 5) && (seq_contains(m, "No pending proposal"@) || seq_contains(
            m,
            "INVALID_PROPOSAL"@,
        )) ==> classify(m) == ErrorCode::InvalidProposal,
        !earlier_keywords(m, 6) && (seq_contains(m, "Engine not initialized"@) || seq_contains(
            m,
            "not synced"@,
        )) ==> classify(m) == ErrorCode::SyncRequired,
        !earlier_keywords(m, 7) && (seq_contains(m, "transport"@) || seq_contains(m, "timeout"@)
            || seq_contains(m, "connection"@)) ==> classify(m) == ErrorCode::NetworkTimeout,
        !earlier_keywords(m, 8) ==> classify(m) == ErrorCode::InternalError,
{
}

/// Whether `m` holds a keyword of one of the first `n` codes in the order of
/// [`lemma_failure_codes`].
pub open spec fn earlier_keywords(m: Seq<char>, n: int) -> bool {
    ||| n >= 1 && seq_contains(m, "APPROVAL_REQUIRED"@)
    ||| n >= 2 && (seq_contains(m, "POLICY_EXCEEDED"@) || seq_contains(m, "RATE_LIMITED"@))
    ||| n >= 3 && seq_contains(m, "ADDRESS_NOT_ALLOWED"@)
    ||| n >= 4 && seq_contains(m, "CONTEXT_REQUIRED"@)
    ||| n >= 5 && (seq_contains(m, "Insufficient"@) || seq_contains(m, "insufficient"@))
    ||| n >= 6 && (seq_contains(m, "No pending proposal"@) || seq_contains(m, "INVALID_PROPOSAL"@))
    ||| n >= 7 && (seq_contains(m, "Engine not initialized"@) || seq_contains(m, "not synced"@))
    ||| n >= 8 && (seq_contains(m, "transport"@) || seq_contains(m, "timeout"@) || seq_contains(
        m,
        "connection"@,
    ))
}

} // verus!
