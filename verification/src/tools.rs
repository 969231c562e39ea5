//! The order of work inside the MCP server's send tools. Each tool is a small machine: it asks
//! for one piece of outside work at a time (loading the policy, asking the engine for a
//! proposal, broadcasting, writing the audit log) and decides from the result what comes next.
//! The server performs the work and hands the result back.
use vstd::prelude::*;

use crate::mcp::{
    classify, classify_error, locked_text, no_seed_text, review_matches, violation_code, ErrorCode,
    Refusal, ReviewedSend, SeedPurpose, SigningSession, ViolationKind,
};

verus! {

/// The audit log's name for the tool that wrote an entry.
#[derive(Debug, Clone, Copy, PartialEq, Eq)]
pub enum AuditAction {
    ProposeSend,
    ConfirmSend,
    X402Pay,
}

impl AuditAction {
    /// The action's name in the audit log.
    pub fn as_str(&self) -> (s: &'static str)
        ensures
            s@ == match self {
                AuditAction::ProposeSend => "propose_send"@,
                AuditAction::ConfirmSend => "confirm_send"@,
                AuditAction::X402Pay => "x402_pay"@,
            },
    {
        match self {
            AuditAction::ProposeSend => "propose_send",
            AuditAction::ConfirmSend => "confirm_send",
            AuditAction::X402Pay => "x402_pay",
        }
    }
}

/// One row of the audit log.
#[derive(Debug, Clone, PartialEq, Eq)]
pub struct AuditEntry {
    pub action: AuditAction,
    pub address: Option<String>,
    pub amount: Option<u64>,
    pub fee: Option<u64>,
    pub context_id: Option<String>,
    pub txid: Option<String>,
    pub error: Option<String>,
}

/// What a tool answers.
#[derive(Debug, Clone, PartialEq, Eq)]
pub enum ToolReply {
    /// A send proposal the agent may confirm under `proposal_id`; `total` is the amount and
    /// the fee together.
    Proposed { proposal_id: String, address: String, send_amount: u64, fee: u64, total: u64 },
    /// The send was broadcast.
    Confirmed { txid: String },
    /// The paywall was paid; `payment_signature` goes into the retried request's header.
    Paid { txid: String, payment_signature: String, amount: u64, fee: u64, pay_to: String },
    /// The tool refused or failed.
    Refused(Refusal),
}

/// The work a tool asks for next.
#[derive(Debug, Clone, PartialEq, Eq)]
pub enum ToolAction {
    /// Load the spending policy; a missing or corrupt file is an error.
    LoadPolicy,
    /// Read today's spending from the audit log.
    ReadDailySpent,
    /// Judge a send against the policy.
    CheckProposal { address: String, amount: u64, context_id: Option<String>, daily_spent: u64 },
    /// Check the policy's minimum spacing between sends.
    CheckRateLimit,
    /// Ask the engine to propose a send (nothing is signed).
    Propose { address: String, amount: u64, memo: Option<String> },
    /// Broadcast the reviewed send through [`confirm_accounted`] (reserve the spend, sign with
    /// the seed, broadcast, settle); its outcome comes back as `Broadcasted`.
    Broadcast { send: ReviewedSend },
    /// Parse the paywall's 402 body for the wallet's network.
    ParsePaywall,
    /// Read the amount the paywall asks for, in zatoshi.
    PaywallAmount,
    /// Broadcast a payment through [`confirm_accounted`] (reserve the spend, sign with the
    /// seed, broadcast, settle); its outcome comes back as `Broadcasted`.
    BroadcastPayment { address: String, amount: u64, fee: u64, context_id: Option<String> },
    /// Build the payment-signature header for the broadcast transaction.
    SignPayment { txid: String },
    /// Write an audit entry (a failure to write is ignored); after a broadcast, also count
    /// it for the rate limit.
    Log { entry: AuditEntry, record_confirm: bool },
    /// Answer the agent.
    Reply(ToolReply),
}

/// What the work asked for gave.
#[derive(Debug, PartialEq, Eq)]
pub enum ToolEvent {
    PolicyLoaded(Result<(), String>),
    DailySpent(Result<u64, String>),
    Verdict(Result<(), (ViolationKind, String)>),
    RateChecked(Result<(), String>),
    Proposed(Result<(u64, u64), String>),
    Broadcasted(Result<String, String>),
    Logged,
    /// The 402 body parsed; the address to pay.
    PaywallParsed(Result<String, String>),
    PaywallAmount(Result<u64, String>),
    PaymentSigned(String),
}

/// A failure reported by its message, with the code the message is classified as.
pub open spec fn failure(message: String) -> ToolReply {
    ToolReply::Refused(Refusal { code: classify(message@), message })
}

pub(crate) fn copy_text(t: &Option<String>) -> (r: Option<String>)
    ensures
        r == *t,
{
    match t {
        Some(s) => Some(s.clone()),
        None => None,
    }
}

/// A copy of a reviewed send.
pub fn copy_send(s: &ReviewedSend) -> (r: ReviewedSend)
    ensures
        r == *s,
{
    ReviewedSend {
        id: s.id.clone(),
        address: s.address.clone(),
        amount: s.amount,
        fee: s.fee,
        context_id: copy_text(&s.context_id),
    }
}

/// A copy of a reply.
pub fn copy_reply(r: &ToolReply) -> (c: ToolReply)
    ensures
        c == *r,
{
    match r {
        ToolReply::Proposed { proposal_id, address, send_amount, fee, total } => ToolReply::Proposed {
            proposal_id: proposal_id.clone(),
            address: address.clone(),
            send_amount: *send_amount,
            fee: *fee,
            total: *total,
        },
        ToolReply::Confirmed { txid } => ToolReply::Confirmed { txid: txid.clone() },
        ToolReply::Paid { txid, payment_signature, amount, fee, pay_to } => ToolReply::Paid {
            txid: txid.clone(),
            payment_signature: payment_signature.clone(),
            amount: *amount,
            fee: *fee,
            pay_to: pay_to.clone(),
        },
        ToolReply::Refused(x) => ToolReply::Refused(
            Refusal { code: copy_code(&x.code), message: x.message.clone() },
        ),
    }
}

fn copy_code(c: &ErrorCode) -> (r: ErrorCode)
    ensures
        r == *c,
{
    match c {
        ErrorCode::Success => ErrorCode::Success,
        ErrorCode::InsufficientFunds => ErrorCode::InsufficientFunds,
        ErrorCode::SyncRequired => ErrorCode::SyncRequired,
        ErrorCode::PolicyExceeded => ErrorCode::PolicyExceeded,
        ErrorCode::ApprovalRequired => ErrorCode::ApprovalRequired,
        ErrorCode::AddressNotAllowed => ErrorCode::AddressNotAllowed,
        ErrorCode::WalletLocked => ErrorCode::WalletLocked,
        ErrorCode::NetworkTimeout => ErrorCode::NetworkTimeout,
        ErrorCode::InvalidProposal => ErrorCode::InvalidProposal,
        ErrorCode::ContextRequired => ErrorCode::ContextRequired,
        ErrorCode::InternalError => ErrorCode::InternalError,
    }
}

fn failure_of(message: String) -> (r: ToolReply)
    ensures
        r == failure(message),
{
    let code = classify_error(message.as_str());
    ToolReply::Refused(Refusal { code, message })
}

// ---------------------------------------------------------------------------------------------
// confirm_send
// ---------------------------------------------------------------------------------------------

/// Where a confirmation stands.
#[derive(Debug, Clone, PartialEq, Eq)]
pub enum ConfirmStage {
    Policy,
    RateLimit,
    Broadcast(ReviewedSend),
    Logging(ToolReply),
    Done,
}

/// The `confirm_send` tool: the wallet must be unlocked with a seed; the policy must load and
/// its rate limit pass; the reviewed send must carry the id and context given, and is taken so
/// it cannot be confirmed twice; only then is it signed and broadcast. Every refusal after the
/// policy loads, and the broadcast, are written to the audit log before the answer.
#[derive(Debug, Clone, PartialEq, Eq)]
pub struct ConfirmFlow {
    stage: ConfirmStage,
    proposal_id: String,
    context_id: Option<String>,
}

impl ConfirmFlow {
    /// Where the confirmation stands.
    pub closed spec fn stage(&self) -> ConfirmStage {
        self.stage
    }

    /// The proposal id and context the agent asked to confirm.
    pub closed spec fn request(&self) -> (Seq<char>, Option<String>) {
        (self.proposal_id@, self.context_id)
    }

    /// The event that the current stage waits for.
    pub open spec fn expects(&self, event: ToolEvent) -> bool {
        match (self.stage(), event) {
            (ConfirmStage::Policy, ToolEvent::PolicyLoaded(_)) => true,
            (ConfirmStage::RateLimit, ToolEvent::RateChecked(_)) => true,
            (ConfirmStage::Broadcast(_), ToolEvent::Broadcasted(_)) => true,
            (ConfirmStage::Logging(_), ToolEvent::Logged) => true,
            _ => false,
        }
    }

    /// Starts a confirmation: a locked wallet or one without a seed is refused at once;
    /// otherwise the policy is loaded first.
    pub fn start<S>(session: &SigningSession<S>, proposal_id: String, context_id: Option<String>) -> (res: (
        ConfirmFlow,
        ToolAction,
    ))
        ensures
            res.0.request() == (proposal_id@, context_id),
            (!session.locked_now() && session.seed_held() is Some) ==> res.0.stage() == ConfirmStage::Policy
                && res.1 == ToolAction::LoadPolicy,
            (session.locked_now() || session.seed_held() is None) ==> res.0.stage() == ConfirmStage::Done
                && (res.1 matches ToolAction::Reply(ToolReply::Refused(r)) && r.code
                == ErrorCode::WalletLocked && r.message@ == if session.locked_now() {
                locked_text(SeedPurpose::Send)
            } else {
                no_seed_text(SeedPurpose::Send)
            }),
    {
        match session.seed_for(SeedPurpose::Send) {
            Err(r) => (
                ConfirmFlow { stage: ConfirmStage::Done, proposal_id, context_id },
                ToolAction::Reply(ToolReply::Refused(r)),
            ),
            Ok(_) => (
                ConfirmFlow { stage: ConfirmStage::Policy, proposal_id, context_id },
                ToolAction::LoadPolicy,
            ),
        }
    }

    /// Takes the result of the work last asked for and says what to do next.
    pub fn step<S>(&mut self, session: &mut SigningSession<S>, event: ToolEvent) -> (action: ToolAction)
        requires
            old(self).expects(event),
        ensures
            final(self).request() == old(self).request(),
            final(session).locked_now() == old(session).locked_now(),
            final(session).seed_held() == old(session).seed_held(),
            action matches ToolAction::Broadcast { send } ==> {
                &&& old(self).stage() == ConfirmStage::RateLimit
                &&& event matches ToolEvent::RateChecked(Ok(_))
                &&& review_matches(old(session).review(), old(self).request().0, old(self).request().1)
                &&& old(session).review() == Some(send)
                &&& final(session).review() is None
            },
            match (old(self).stage(), event) {
                (ConfirmStage::Policy, ToolEvent::PolicyLoaded(Err(e))) => {
                    &&& final(self).stage() == ConfirmStage::Done
                    &&& action == ToolAction::Reply(failure(e))
                    &&& final(session).review() == old(session).review()
                },
                (ConfirmStage::Policy, ToolEvent::PolicyLoaded(Ok(_))) => {
                    &&& final(self).stage() == ConfirmStage::RateLimit
                    &&& action == ToolAction::CheckRateLimit
                    &&& final(session).review() == old(session).review()
                },
                (ConfirmStage::RateLimit, ToolEvent::RateChecked(Err(v))) => {
                    &&& final(self).stage() == ConfirmStage::Logging(
                        ToolReply::Refused(Refusal { code: ErrorCode::PolicyExceeded, message: v }),
                    )
                    &&& action == ToolAction::Log {
                        entry: AuditEntry {
                            action: AuditAction::ConfirmSend,
                            address: None,
                            amount: None,
                            fee: None,
                            context_id: old(self).request().1,
                            txid: None,
                            error: Some(v),
                        },
                        record_confirm: false,
                    }
                    &&& final(session).review() == old(session).review()
                },
                (ConfirmStage::RateLimit, ToolEvent::RateChecked(Ok(_))) => if review_matches(
                    old(session).review(),
                    old(self).request().0,
                    old(self).request().1,
                ) {
                    &&& final(self).stage() == ConfirmStage::Broadcast(old(session).review().unwrap())
                    &&& action == ToolAction::Broadcast { send: old(session).review().unwrap() }
                    &&& final(session).review() is None
                } else {
                    &&& final(self).stage() == ConfirmStage::Done
                    &&& action matches ToolAction::Reply(ToolReply::Refused(r))
                    &&& r.code == ErrorCode::InvalidProposal
                    &&& r.message@ == "Proposal replaced or context changed. Review again."@
                    &&& final(session).review() == old(session).review()
                },
                (ConfirmStage::Broadcast(send), ToolEvent::Broadcasted(Ok(txid))) => {
                    &&& final(self).stage() == ConfirmStage::Logging(ToolReply::Confirmed { txid })
                    &&& action == ToolAction::Log {
                        entry: AuditEntry {
                            action: AuditAction::ConfirmSend,
                            address: Some(send.address),
                            amount: Some(send.amount),
                            fee: Some(send.fee),
                            context_id: old(self).request().1,
                            txid: Some(txid),
                            error: None,
                        },
                        record_confirm: true,
                    }
                    &&& final(session).review() == old(session).review()
                },
                (ConfirmStage::Broadcast(_), ToolEvent::Broadcasted(Err(e))) => {
                    &&& final(self).stage() == ConfirmStage::Logging(failure(e))
                    &&& action == ToolAction::Log {
                        entry: AuditEntry {
                            action: AuditAction::ConfirmSend,
                            address: None,
                            amount: None,
                            fee: None,
                            context_id: old(self).request().1,
                            txid: None,
                            error: Some(e),
                        },
                        record_confirm: false,
                    }
                    &&& final(session).review() == old(session).review()
                },
                (ConfirmStage::Logging(reply), ToolEvent::Logged) => {
                    &&& final(self).stage() == ConfirmStage::Done
                    &&& action == ToolAction::Reply(reply)
                    &&& final(session).review() == old(session).review()
                },
                _ => false,
            },
    {
        match event {
            ToolEvent::PolicyLoaded(Err(e)) => {
                self.stage = ConfirmStage::Done;
                ToolAction::Reply(failure_of(e))
            },
            ToolEvent::PolicyLoaded(Ok(())) => {
                self.stage = ConfirmStage::RateLimit;
                ToolAction::CheckRateLimit
            },
            ToolEvent::RateChecked(Err(v)) => {
                self.stage = ConfirmStage::Logging(
                    ToolReply::Refused(Refusal { code: ErrorCode::PolicyExceeded, message: v.clone() }),
                );
                ToolAction::Log {
                    entry: AuditEntry {
                        action: AuditAction::ConfirmSend,
                        address: None,
                        amount: None,
                        fee: None,
                        context_id: copy_text(&self.context_id),
                        txid: None,
                        error: Some(v),
                    },
                    record_confirm: false,
                }
            },
            ToolEvent::RateChecked(Ok(())) => {
                match session.take_reviewed(self.proposal_id.as_str(), &self.context_id) {
                    Ok(send) => {
                        self.stage = ConfirmStage::Broadcast(copy_send(&send));
                        ToolAction::Broadcast { send }
                    },
                    Err(r) => {
                        self.stage = ConfirmStage::Done;
                        ToolAction::Reply(ToolReply::Refused(r))
                    },
                }
            },
            ToolEvent::Broadcasted(Ok(txid)) => {
                let (address, amount, fee) = match &self.stage {
                    ConfirmStage::Broadcast(send) => (send.address.clone(), send.amount, send.fee),
                    _ => (String::new(), 0, 0),
                };
                self.stage = ConfirmStage::Logging(ToolReply::Confirmed { txid: txid.clone() });
                ToolAction::Log {
                    entry: AuditEntry {
                        action: AuditAction::ConfirmSend,
                        address: Some(address),
                        amount: Some(amount),
                        fee: Some(fee),
                        context_id: copy_text(&self.context_id),
                        txid: Some(txid),
                        error: None,
                    },
                    record_confirm: true,
                }
            },
            ToolEvent::Broadcasted(Err(e)) => {
                self.stage = ConfirmStage::Logging(failure_of(e.clone()));
                ToolAction::Log {
                    entry: AuditEntry {
                        action: AuditAction::ConfirmSend,
                        address: None,
                        amount: None,
                        fee: None,
                        context_id: copy_text(&self.context_id),
                        txid: None,
                        error: Some(e),
                    },
                    record_confirm: false,
                }
            },
            ToolEvent::Logged => {
                let reply = match &self.stage {
                    ConfirmStage::Logging(reply) => copy_reply(reply),
                    _ => ToolReply::Confirmed { txid: String::new() },
                };
                self.stage = ConfirmStage::Done;
                ToolAction::Reply(reply)
            },
            _ => ToolAction::Reply(ToolReply::Confirmed { txid: String::new() }),
        }
    }
}

// ---------------------------------------------------------------------------------------------
// propose_send
// ---------------------------------------------------------------------------------------------

/// Where a proposal stands.
#[derive(Debug, Clone, PartialEq, Eq)]
pub enum ProposeStage {
    Policy,
    DailySpent,
    Verdict,
    Engine,
    Logging(ToolReply),
    Done,
}

/// The `propose_send` tool: any earlier reviewed send is dropped; the policy must load, today's
/// spending must be known, and the policy must pass the requested amount before the engine is
/// asked for a proposal; the engine's amount and fee then become the one reviewed send, under a
/// fresh id. Refusals by the policy and by the engine, and the proposal, are written to the
/// audit log before the answer.
#[derive(Debug, Clone, PartialEq, Eq)]
pub struct ProposeFlow {
    stage: ProposeStage,
    address: String,
    amount: u64,
    memo: Option<String>,
    context_id: Option<String>,
}

impl ProposeFlow {
    /// Where the proposal stands.
    pub closed spec fn stage(&self) -> ProposeStage {
        self.stage
    }

    /// The send the agent asked for: address, amount, memo, context.
    pub closed spec fn request(&self) -> (String, u64, Option<String>, Option<String>) {
        (self.address, self.amount, self.memo, self.context_id)
    }

    /// The event that the current stage waits for. A proposal's total, the engine's amount and
    /// fee, must fit in a `u64`.
    pub open spec fn expects(&self, event: ToolEvent) -> bool {
        match (self.stage(), event) {
            (ProposeStage::Policy, ToolEvent::PolicyLoaded(_)) => true,
            (ProposeStage::DailySpent, ToolEvent::DailySpent(_)) => true,
            (ProposeStage::Verdict, ToolEvent::Verdict(_)) => true,
            (ProposeStage::Engine, ToolEvent::Proposed(r)) => match r {
                Ok((send_amount, fee)) => send_amount + fee <= u64::MAX,
                Err(_) => true,
            },
            (ProposeStage::Logging(_), ToolEvent::Logged) => true,
            _ => false,
        }
    }

    /// Starts a proposal: the reviewed send is dropped and the policy is loaded first.
    pub fn start<S>(
        session: &mut SigningSession<S>,
        address: String,
        amount: u64,
        memo: Option<String>,
        context_id: Option<String>,
    ) -> (res: (ProposeFlow, ToolAction))
        ensures
            final(session).review() is None,
            final(session).locked_now() == old(session).locked_now(),
            final(session).seed_held() == old(session).seed_held(),
            res.0.stage() == ProposeStage::Policy,
            res.0.request() == (address, amount, memo, context_id),
            res.1 == ToolAction::LoadPolicy,
    {
        session.clear_review();
        (
            ProposeFlow { stage: ProposeStage::Policy, address, amount, memo, context_id },
            ToolAction::LoadPolicy,
        )
    }

    /// Takes the result of the work last asked for and says what to do next.
    pub fn step<S>(&mut self, session: &mut SigningSession<S>, event: ToolEvent) -> (action: ToolAction)
        requires
            old(self).expects(event),
        ensures
            final(self).request() == old(self).request(),
            final(session).locked_now() == old(session).locked_now(),
            final(session).seed_held() == old(session).seed_held(),
            action matches ToolAction::Propose { address, amount, memo } ==> {
                &&& old(self).stage() == ProposeStage::Verdict
                &&& event matches ToolEvent::Verdict(Ok(_))
                &&& address == old(self).request().0
                &&& amount == old(self).request().1
                &&& memo == old(self).request().2
            },
            match (old(self).stage(), event) {
                (ProposeStage::Policy, ToolEvent::PolicyLoaded(Err(e))) => {
                    &&& final(self).stage() == ProposeStage::Done
                    &&& action == ToolAction::Reply(failure(e))
                    &&& final(session).review() == old(session).review()
                },
                (ProposeStage::Policy, ToolEvent::PolicyLoaded(Ok(_))) => {
                    &&& final(self).stage() == ProposeStage::DailySpent
                    &&& action == ToolAction::ReadDailySpent
                    &&& final(session).review() == old(session).review()
                },
                (ProposeStage::DailySpent, ToolEvent::DailySpent(Err(e))) => {
                    &&& final(self).stage() == ProposeStage::Done
                    &&& action == ToolAction::Reply(failure(e))
                    &&& final(session).review() == old(session).review()
                },
                (ProposeStage::DailySpent, ToolEvent::DailySpent(Ok(d))) => {
                    &&& final(self).stage() == ProposeStage::Verdict
                    &&& action == ToolAction::CheckProposal {
                        address: old(self).request().0,
                        amount: old(self).request().1,
                        context_id: old(self).request().3,
                        daily_spent: d,
                    }
                    &&& final(session).review() == old(session).review()
                },
                (ProposeStage::Verdict, ToolEvent::Verdict(Err((kind, v)))) => {
                    &&& final(self).stage() == ProposeStage::Logging(
                        ToolReply::Refused(
                            Refusal {
                                code: match kind {
                                    ViolationKind::AddressNotAllowed => ErrorCode::AddressNotAllowed,
                                    ViolationKind::ContextRequired => ErrorCode::ContextRequired,
                                    ViolationKind::ApprovalRequired => ErrorCode::ApprovalRequired,
                                    ViolationKind::Exceeded => ErrorCode::PolicyExceeded,
                                },
                                message: v,
                            },
                        ),
                    )
                    &&& action == ToolAction::Log {
                        entry: AuditEntry {
                            action: AuditAction::ProposeSend,
                            address: Some(old(self).request().0),
                            amount: Some(old(self).request().1),
                            fee: None,
                            context_id: old(self).request().3,
                            txid: None,
                            error: Some(v),
                        },
                        record_confirm: false,
                    }
                    &&& final(session).review() == old(session).review()
                },
                (ProposeStage::Verdict, ToolEvent::Verdict(Ok(_))) => {
                    &&& final(self).stage() == ProposeStage::Engine
                    &&& action == ToolAction::Propose {
                        address: old(self).request().0,
                        amount: old(self).request().1,
                        memo: old(self).request().2,
                    }
                    &&& final(session).review() == old(session).review()
                },
                (ProposeStage::Engine, ToolEvent::Proposed(Ok((send_amount, fee)))) => {
                    &&& final(session).review() matches Some(r)
                    &&& r.address == old(self).request().0
                    &&& r.amount == send_amount
                    &&& r.fee == fee
                    &&& r.context_id == old(self).request().3
                    &&& final(self).stage() == ProposeStage::Logging(
                        ToolReply::Proposed {
                            proposal_id: r.id,
                            address: old(self).request().0,
                            send_amount,
                            fee,
                            total: (send_amount + fee) as u64,
                        },
                    )
                    &&& action == ToolAction::Log {
                        entry: AuditEntry {
                            action: AuditAction::ProposeSend,
                            address: Some(old(self).request().0),
                            amount: Some(send_amount),
                            fee: Some(fee),
                            context_id: old(self).request().3,
                            txid: None,
                            error: None,
                        },
                        record_confirm: false,
                    }
                },
                (ProposeStage::Engine, ToolEvent::Proposed(Err(e))) => {
                    &&& final(self).stage() == ProposeStage::Logging(failure(e))
                    &&& action == ToolAction::Log {
                        entry: AuditEntry {
                            action: AuditAction::ProposeSend,
                            address: Some(old(self).request().0),
                            amount: Some(old(self).request().1),
                            fee: None,
                            context_id: old(self).request().3,
                            txid: None,
                            error: Some(e),
                        },
                        record_confirm: false,
                    }
                    &&& final(session).review() == old(session).review()
                },
                (ProposeStage::Logging(reply), ToolEvent::Logged) => {
                    &&& final(self).stage() == ProposeStage::Done
                    &&& action == ToolAction::Reply(reply)
                    &&& final(session).review() == old(session).review()
                },
                _ => false,
            },
    {
        match event {
            ToolEvent::PolicyLoaded(Err(e)) => {
                self.stage = ProposeStage::Done;
                ToolAction::Reply(failure_of(e))
            },
            ToolEvent::PolicyLoaded(Ok(())) => {
                self.stage = ProposeStage::DailySpent;
                ToolAction::ReadDailySpent
            },
            ToolEvent::DailySpent(Err(e)) => {
                self.stage = ProposeStage::Done;
                ToolAction::Reply(failure_of(e))
            },
            ToolEvent::DailySpent(Ok(d)) => {
                self.stage = ProposeStage::Verdict;
                ToolAction::CheckProposal {
                    address: self.address.clone(),
                    amount: self.amount,
                    context_id: copy_text(&self.context_id),
                    daily_spent: d,
                }
            },
            ToolEvent::Verdict(Err((kind, v))) => {
                let code = violation_code(&kind);
                self.stage = ProposeStage::Logging(
                    ToolReply::Refused(Refusal { code, message: v.clone() }),
                );
                ToolAction::Log {
                    entry: AuditEntry {
                        action: AuditAction::ProposeSend,
                        address: Some(self.address.clone()),
                        amount: Some(self.amount),
                        fee: None,
                        context_id: copy_text(&self.context_id),
                        txid: None,
                        error: Some(v),
                    },
                    record_confirm: false,
                }
            },
            ToolEvent::Verdict(Ok(())) => {
                self.stage = ProposeStage::Engine;
                ToolAction::Propose {
                    address: self.address.clone(),
                    amount: self.amount,
                    memo: copy_text(&self.memo),
                }
            },
            ToolEvent::Proposed(Ok((send_amount, fee))) => {
                let id = session.begin_review(
                    self.address.clone(),
                    send_amount,
                    fee,
                    copy_text(&self.context_id),
                );
                self.stage = ProposeStage::Logging(
                    ToolReply::Proposed {
                        proposal_id: id,
                        address: self.address.clone(),
                        send_amount,
                        fee,
                        total: send_amount + fee,
                    },
                );
                ToolAction::Log {
                    entry: AuditEntry {
                        action: AuditAction::ProposeSend,
                        address: Some(self.address.clone()),
                        amount: Some(send_amount),
                        fee: Some(fee),
                        context_id: copy_text(&self.context_id),
                        txid: None,
                        error: None,
                    },
                    record_confirm: false,
                }
            },
            ToolEvent::Proposed(Err(e)) => {
                self.stage = ProposeStage::Logging(failure_of(e.clone()));
                ToolAction::Log {
                    entry: AuditEntry {
                        action: AuditAction::ProposeSend,
                        address: Some(self.address.clone()),
                        amount: Some(self.amount),
                        fee: None,
                        context_id: copy_text(&self.context_id),
                        txid: None,
                        error: Some(e),
                    },
                    record_confirm: false,
                }
            },
            ToolEvent::Logged => {
                let reply = match &self.stage {
                    ProposeStage::Logging(reply) => copy_reply(reply),
                    _ => ToolReply::Confirmed { txid: String::new() },
                };
                self.stage = ProposeStage::Done;
                ToolAction::Reply(reply)
            },
            _ => ToolAction::Reply(ToolReply::Confirmed { txid: String::new() }),
        }
    }
}

// ---------------------------------------------------------------------------------------------
// pay_x402
// ---------------------------------------------------------------------------------------------

/// Where a paywall payment stands.
#[derive(Debug, Clone, PartialEq, Eq)]
pub enum PayStage {
    Parse,
    Amount,
    Policy,
    DailySpent,
    Verdict,
    RateLimit,
    Engine,
    Broadcast { send_amount: u64, fee: u64 },
    Logging(ToolReply),
    Recording { txid: String, send_amount: u64, fee: u64 },
    Signature { txid: String, send_amount: u64, fee: u64 },
    Done,
}

/// The `pay_x402` tool: any reviewed send is dropped; the wallet must be unlocked with a seed;
/// the 402 body must parse for the wallet's network and name an amount; the policy must load,
/// pass the amount and its rate limit before the engine is asked for the payment and before
/// anything is signed. Refusals and the payment are written to the audit log.
#[derive(Debug, Clone, PartialEq, Eq)]
pub struct PayFlow {
    stage: PayStage,
    context_id: Option<String>,
    address: String,
    amount: u64,
}

/// The audit entry of a refused or failed payment of `amount` (with `fee`, once the engine
/// proposed it) to the paywall's address, under the payment's context.
pub open spec fn pay_entry(
    payment: (Option<String>, String, u64),
    amount: u64,
    fee: Option<u64>,
    error: Option<String>,
) -> AuditEntry {
    AuditEntry {
        action: AuditAction::X402Pay,
        address: Some(payment.1),
        amount: Some(amount),
        fee,
        context_id: payment.0,
        txid: None,
        error,
    }
}

impl PayFlow {
    /// Where the payment stands.
    pub closed spec fn stage(&self) -> PayStage {
        self.stage
    }

    /// The payment's context, the address and amount the paywall asked for (once known).
    pub closed spec fn payment(&self) -> (Option<String>, String, u64) {
        (self.context_id, self.address, self.amount)
    }

    /// The event that the current stage waits for.
    pub open spec fn expects(&self, event: ToolEvent) -> bool {
        match (self.stage(), event) {
            (PayStage::Parse, ToolEvent::PaywallParsed(_)) => true,
            (PayStage::Amount, ToolEvent::PaywallAmount(_)) => true,
            (PayStage::Policy, ToolEvent::PolicyLoaded(_)) => true,
            (PayStage::DailySpent, ToolEvent::DailySpent(_)) => true,
            (PayStage::Verdict, ToolEvent::Verdict(_)) => true,
            (PayStage::RateLimit, ToolEvent::RateChecked(_)) => true,
            (PayStage::Engine, ToolEvent::Proposed(_)) => true,
            (PayStage::Broadcast { .. }, ToolEvent::Broadcasted(_)) => true,
            (PayStage::Logging(_), ToolEvent::Logged) => true,
            (PayStage::Recording { .. }, ToolEvent::Logged) => true,
            (PayStage::Signature { .. }, ToolEvent::PaymentSigned(_)) => true,
            _ => false,
        }
    }

    /// Starts a payment: the reviewed send is dropped; a locked wallet or one without a seed is
    /// refused; otherwise the 402 body is parsed first.
    pub fn start<S>(session: &mut SigningSession<S>, context_id: Option<String>) -> (res: (
        PayFlow,
        ToolAction,
    ))
        ensures
            final(session).review() is None,
            final(session).locked_now() == old(session).locked_now(),
            final(session).seed_held() == old(session).seed_held(),
            res.0.payment().0 == context_id,
            (!old(session).locked_now() && old(session).seed_held() is Some) ==> res.0.stage() == PayStage::Parse
                && res.1 == ToolAction::ParsePaywall,
            (old(session).locked_now() || old(session).seed_held() is None) ==> res.0.stage() == PayStage::Done
                && (res.1 matches ToolAction::Reply(ToolReply::Refused(r)) && r.code
                == ErrorCode::WalletLocked && r.message@ == if old(session).locked_now() {
                locked_text(SeedPurpose::Send)
            } else {
                no_seed_text(SeedPurpose::Send)
            }),
    {
        session.clear_review();
        match session.seed_for(SeedPurpose::Send) {
            Err(r) => (
                PayFlow { stage: PayStage::Done, context_id, address: String::new(), amount: 0 },
                ToolAction::Reply(ToolReply::Refused(r)),
            ),
            Ok(_) => (
                PayFlow { stage: PayStage::Parse, context_id, address: String::new(), amount: 0 },
                ToolAction::ParsePaywall,
            ),
        }
    }

    fn refusal_entry(&self, amount: u64, fee: Option<u64>, error: String) -> (e: AuditEntry)
        ensures
            e == (AuditEntry {
                action: AuditAction::X402Pay,
                address: Some(self.payment().1),
                amount: Some(amount),
                fee,
                context_id: self.payment().0,
                txid: None,
                error: Some(error),
            }),
    {
        AuditEntry {
            action: AuditAction::X402Pay,
            address: Some(self.address.clone()),
            amount: Some(amount),
            fee,
            context_id: copy_text(&self.context_id),
            txid: None,
            error: Some(error),
        }
    }

    /// Takes the result of the work last asked for and says what to do next. Nothing is
    /// proposed to the engine, and nothing signed, before the policy has passed the amount and
    /// its rate limit.
    pub fn step(&mut self, event: ToolEvent) -> (action: ToolAction)
        requires
            old(self).expects(event),
        ensures
            final(self).payment().0 == old(self).payment().0,
            !(event matches ToolEvent::PaywallParsed(Ok(_))) && !(event matches ToolEvent::PaywallAmount(
                Ok(_),
            )) ==> final(self).payment() == old(self).payment(),
            action is Propose ==> old(self).stage() == PayStage::RateLimit && event matches ToolEvent::RateChecked(Ok(_)),
            action matches ToolAction::BroadcastPayment { address, amount, fee, context_id } ==> {
                &&& old(self).stage() == PayStage::Engine
                &&& event == ToolEvent::Proposed(Ok((amount, fee)))
                &&& address == old(self).payment().1
                &&& context_id == old(self).payment().0
            },
            match (old(self).stage(), event) {
                (PayStage::Parse, ToolEvent::PaywallParsed(Err(e))) => {
                    &&& final(self).stage() == PayStage::Done
                    &&& action matches ToolAction::Reply(ToolReply::Refused(r))
                    &&& r.code == ErrorCode::InvalidProposal
                    &&& r.message@ == "Invalid x402 body: "@ + e@
                },
                (PayStage::Parse, ToolEvent::PaywallParsed(Ok(pay_to))) => {
                    &&& final(self).stage() == PayStage::Amount
                    &&& final(self).payment() == (old(self).payment().0, pay_to, old(self).payment().2)
                    &&& action == ToolAction::PaywallAmount
                },
                (PayStage::Amount, ToolEvent::PaywallAmount(Err(e))) => {
                    &&& final(self).stage() == PayStage::Done
                    &&& action == ToolAction::Reply(
                        ToolReply::Refused(Refusal { code: ErrorCode::InvalidProposal, message: e }),
                    )
                },
                (PayStage::Amount, ToolEvent::PaywallAmount(Ok(a))) => {
                    &&& final(self).stage() == PayStage::Policy
                    &&& final(self).payment() == (old(self).payment().0, old(self).payment().1, a)
                    &&& action == ToolAction::LoadPolicy
                },
                (PayStage::Policy, ToolEvent::PolicyLoaded(Err(e))) => {
                    &&& final(self).stage() == PayStage::Done
                    &&& action == ToolAction::Reply(failure(e))
                },
                (PayStage::Policy, ToolEvent::PolicyLoaded(Ok(_))) => {
                    &&& final(self).stage() == PayStage::DailySpent
                    &&& action == ToolAction::ReadDailySpent
                },
                (PayStage::DailySpent, ToolEvent::DailySpent(Err(e))) => {
                    &&& final(self).stage() == PayStage::Done
                    &&& action == ToolAction::Reply(failure(e))
                },
                (PayStage::DailySpent, ToolEvent::DailySpent(Ok(d))) => {
                    &&& final(self).stage() == PayStage::Verdict
                    &&& action == ToolAction::CheckProposal {
                        address: old(self).payment().1,
                        amount: old(self).payment().2,
                        context_id: old(self).payment().0,
                        daily_spent: d,
                    }
                },
                (PayStage::Verdict, ToolEvent::Verdict(Err((kind, v)))) => {
                    &&& final(self).stage() == PayStage::Logging(
                        ToolReply::Refused(
                            Refusal {
                                code: match kind {
                                    ViolationKind::AddressNotAllowed => ErrorCode::AddressNotAllowed,
                                    ViolationKind::ContextRequired => ErrorCode::ContextRequired,
                                    ViolationKind::ApprovalRequired => ErrorCode::ApprovalRequired,
                                    ViolationKind::Exceeded => ErrorCode::PolicyExceeded,
                                },
                                message: v,
                            },
                        ),
                    )
                    &&& action == ToolAction::Log {
                        entry: pay_entry(old(self).payment(), old(self).payment().2, None, Some(v)),
                        record_confirm: false,
                    }
                },
                (PayStage::Verdict, ToolEvent::Verdict(Ok(_))) => {
                    &&& final(self).stage() == PayStage::RateLimit
                    &&& action == ToolAction::CheckRateLimit
                },
                (PayStage::RateLimit, ToolEvent::RateChecked(Err(v))) => {
                    &&& final(self).stage() == PayStage::Logging(
                        ToolReply::Refused(Refusal { code: ErrorCode::PolicyExceeded, message: v }),
                    )
                    &&& action == ToolAction::Log {
                        entry: pay_entry(old(self).payment(), old(self).payment().2, None, Some(v)),
                        record_confirm: false,
                    }
                },
                (PayStage::RateLimit, ToolEvent::RateChecked(Ok(_))) => {
                    &&& final(self).stage() == PayStage::Engine
                    &&& action == ToolAction::Propose {
                        address: old(self).payment().1,
                        amount: old(self).payment().2,
                        memo: None,
                    }
                },
                (PayStage::Engine, ToolEvent::Proposed(Err(e))) => {
                    &&& final(self).stage() == PayStage::Logging(failure(e))
                    &&& action == ToolAction::Log {
                        entry: pay_entry(old(self).payment(), old(self).payment().2, None, Some(e)),
                        record_confirm: false,
                    }
                },
                (PayStage::Engine, ToolEvent::Proposed(Ok((send_amount, fee)))) => {
                    &&& final(self).stage() == PayStage::Broadcast { send_amount, fee }
                    &&& action == ToolAction::BroadcastPayment {
                        address: old(self).payment().1,
                        amount: send_amount,
                        fee,
                        context_id: old(self).payment().0,
                    }
                },
                (PayStage::Broadcast { send_amount, fee }, ToolEvent::Broadcasted(Err(e))) => {
                    &&& final(self).stage() == PayStage::Logging(failure(e))
                    &&& action == ToolAction::Log {
                        entry: pay_entry(old(self).payment(), send_amount, Some(fee), Some(e)),
                        record_confirm: false,
                    }
                },
                (PayStage::Broadcast { send_amount, fee }, ToolEvent::Broadcasted(Ok(txid))) => {
                    &&& final(self).stage() == PayStage::Recording { txid, send_amount, fee }
                    &&& action == ToolAction::Log {
                        entry: AuditEntry {
                            action: AuditAction::X402Pay,
                            address: Some(old(self).payment().1),
                            amount: Some(send_amount),
                            fee: Some(fee),
                            context_id: old(self).payment().0,
                            txid: Some(txid),
                            error: None,
                        },
                        record_confirm: true,
                    }
                },
                (PayStage::Recording { txid, send_amount, fee }, ToolEvent::Logged) => {
                    &&& final(self).stage() == PayStage::Signature { txid, send_amount, fee }
                    &&& action == ToolAction::SignPayment { txid }
                },
                (PayStage::Signature { txid, send_amount, fee }, ToolEvent::PaymentSigned(sig)) => {
                    &&& final(self).stage() == PayStage::Done
                    &&& action == ToolAction::Reply(
                        ToolReply::Paid {
                            txid,
                            payment_signature: sig,
                            amount: send_amount,
                            fee,
                            pay_to: old(self).payment().1,
                        },
                    )
                },
                (PayStage::Logging(reply), ToolEvent::Logged) => {
                    &&& final(self).stage() == PayStage::Done
                    &&& action == ToolAction::Reply(reply)
                },
                _ => false,
            },
    {
        match event {
            ToolEvent::PaywallParsed(Err(e)) => {
                self.stage = PayStage::Done;
                let mut m = String::from_str("Invalid x402 body: ");
                m.append(e.as_str());
                ToolAction::Reply(
                    ToolReply::Refused(Refusal { code: ErrorCode::InvalidProposal, message: m }),
                )
            },
            ToolEvent::PaywallParsed(Ok(pay_to)) => {
                self.address = pay_to;
                self.stage = PayStage::Amount;
                ToolAction::PaywallAmount
            },
            ToolEvent::PaywallAmount(Err(e)) => {
                self.stage = PayStage::Done;
                ToolAction::Reply(
                    ToolReply::Refused(Refusal { code: ErrorCode::InvalidProposal, message: e }),
                )
            },
            ToolEvent::PaywallAmount(Ok(a)) => {
                self.amount = a;
                self.stage = PayStage::Policy;
                ToolAction::LoadPolicy
            },
            ToolEvent::PolicyLoaded(Err(e)) => {
                self.stage = PayStage::Done;
                ToolAction::Reply(failure_of(e))
            },
            ToolEvent::PolicyLoaded(Ok(())) => {
                self.stage = PayStage::DailySpent;
                ToolAction::ReadDailySpent
            },
            ToolEvent::DailySpent(Err(e)) => {
                self.stage = PayStage::Done;
                ToolAction::Reply(failure_of(e))
            },
            ToolEvent::DailySpent(Ok(d)) => {
                self.stage = PayStage::Verdict;
                ToolAction::CheckProposal {
                    address: self.address.clone(),
                    amount: self.amount,
                    context_id: copy_text(&self.context_id),
                    daily_spent: d,
                }
            },
            ToolEvent::Verdict(Err((kind, v))) => {
                let code = violation_code(&kind);
                let entry = self.refusal_entry(self.amount, None, v.clone());
                self.stage = PayStage::Logging(ToolReply::Refused(Refusal { code, message: v }));
                ToolAction::Log { entry, record_confirm: false }
            },
            ToolEvent::Verdict(Ok(())) => {
                self.stage = PayStage::RateLimit;
                ToolAction::CheckRateLimit
            },
            ToolEvent::RateChecked(Err(v)) => {
                let entry = self.refusal_entry(self.amount, None, v.clone());
                self.stage = PayStage::Logging(
                    ToolReply::Refused(Refusal { code: ErrorCode::PolicyExceeded, message: v }),
                );
                ToolAction::Log { entry, record_confirm: false }
            },
            ToolEvent::RateChecked(Ok(())) => {
                self.stage = PayStage::Engine;
                ToolAction::Propose { address: self.address.clone(), amount: self.amount, memo: None }
            },
            ToolEvent::Proposed(Err(e)) => {
                let entry = self.refusal_entry(self.amount, None, e.clone());
                self.stage = PayStage::Logging(failure_of(e));
                ToolAction::Log { entry, record_confirm: false }
            },
            ToolEvent::Proposed(Ok((send_amount, fee))) => {
                self.stage = PayStage::Broadcast { send_amount, fee };
                ToolAction::BroadcastPayment {
                    address: self.address.clone(),
                    amount: send_amount,
                    fee,
                    context_id: copy_text(&self.context_id),
                }
            },
            ToolEvent::Broadcasted(Err(e)) => {
                let (send_amount, fee) = match &self.stage {
                    PayStage::Broadcast { send_amount, fee } => (*send_amount, *fee),
                    _ => (0, 0),
                };
                let entry = self.refusal_entry(send_amount, Some(fee), e.clone());
                self.stage = PayStage::Logging(failure_of(e));
                ToolAction::Log { entry, record_confirm: false }
            },
            ToolEvent::Broadcasted(Ok(txid)) => {
                let (send_amount, fee) = match &self.stage {
                    PayStage::Broadcast { send_amount, fee } => (*send_amount, *fee),
                    _ => (0, 0),
                };
                self.stage = PayStage::Recording { txid: txid.clone(), send_amount, fee };
                ToolAction::Log {
                    entry: AuditEntry {
                        action: AuditAction::X402Pay,
                        address: Some(self.address.clone()),
                        amount: Some(send_amount),
                        fee: Some(fee),
                        context_id: copy_text(&self.context_id),
                        txid: Some(txid),
                        error: None,
                    },
                    record_confirm: true,
                }
            },
            ToolEvent::PaymentSigned(sig) => {
                let (txid, send_amount, fee) = match &self.stage {
                    PayStage::Signature { txid, send_amount, fee } => (txid.clone(), *send_amount, *fee),
                    _ => (String::new(), 0, 0),
                };
                self.stage = PayStage::Done;
                ToolAction::Reply(
                    ToolReply::Paid {
                        txid,
                        payment_signature: sig,
                        amount: send_amount,
                        fee,
                        pay_to: self.address.clone(),
                    },
                )
            },
            ToolEvent::Logged => {
                match &self.stage {
                    PayStage::Recording { txid, send_amount, fee } => {
                        let (txid, send_amount, fee) = (txid.clone(), *send_amount, *fee);
                        self.stage = PayStage::Signature { txid: txid.clone(), send_amount, fee };
                        ToolAction::SignPayment { txid }
                    },
                    _ => {
                        let reply = match &self.stage {
                            PayStage::Logging(reply) => copy_reply(reply),
                            _ => ToolReply::Confirmed { txid: String::new() },
                        };
                        self.stage = PayStage::Done;
                        ToolAction::Reply(reply)
                    },
                }
            },
        }
    }
}

// ---------------------------------------------------------------------------------------------
// Tools that are not available in this version
// ---------------------------------------------------------------------------------------------

/// A tool the server lists but does not perform.
#[derive(Debug, Clone, Copy, PartialEq, Eq)]
pub enum UnavailableTool {
    VoteEligibility,
    IronwoodConfirm,
    IronwoodPause,
    IronwoodResume,
}

/// What the server says when an unavailable tool is called.
pub open spec fn unavailable_text(tool: UnavailableTool) -> Seq<char> {
    match tool {
        UnavailableTool::VoteEligibility =>
            "Voting is temporarily disabled during the Ironwood (NU6.3) upgrade. It will return once zcash_voting supports orchard 0.15."@,
        UnavailableTool::IronwoodConfirm =>
            "Headless Ironwood execution is not connected to the SDK runner. Use the wallet app to review and execute the transfer. Nothing was signed or scheduled."@,
        UnavailableTool::IronwoodPause =>
            "Headless pause cannot control the SDK migration runner. Nothing was paused."@,
        UnavailableTool::IronwoodResume =>
            "Headless resume is not connected to the SDK migration runner. Nothing was resumed."@,
    }
}

/// The reply of an unavailable tool: a failure with its fixed message, reported as an
/// internal error (no keyword of another code occurs in it); nothing is done.
pub fn unavailable_reply(tool: UnavailableTool) -> (r: ToolReply)
    ensures
        r == ToolReply::Refused(
            Refusal { code: ErrorCode::InternalError, message: r->Refused_0.message },
        ),
        r->Refused_0.message@ == unavailable_text(tool),
{
    let m = match tool {
        UnavailableTool::VoteEligibility => String::from_str(
            "Voting is temporarily disabled during the Ironwood (NU6.3) upgrade. It will return once zcash_voting supports orchard 0.15.",
        ),
        UnavailableTool::IronwoodConfirm => String::from_str(
            "Headless Ironwood execution is not connected to the SDK runner. Use the wallet app to review and execute the transfer. Nothing was signed or scheduled.",
        ),
        UnavailableTool::IronwoodPause => String::from_str(
            "Headless pause cannot control the SDK migration runner. Nothing was paused.",
        ),
        UnavailableTool::IronwoodResume => String::from_str(
            "Headless resume is not connected to the SDK migration runner. Nothing was resumed.",
        ),
    };
    ToolReply::Refused(Refusal { code: ErrorCode::InternalError, message: m })
}

// ---------------------------------------------------------------------------------------------
// The accounted broadcast
// ---------------------------------------------------------------------------------------------

/// The work an accounted broadcast asks for next.
#[derive(Debug, PartialEq, Eq)]
pub enum AccountAction {
    /// Load the spending policy again; a missing or corrupt file is an error.
    LoadPolicy,
    /// Check the policy's minimum spacing between sends.
    CheckRateLimit,
    /// Reserve the spend in the durable daily ledger, before anything is signed.
    Reserve { address: String, amount: u64, fee: u64, context_id: Option<String> },
    /// Sign the proposed send with the seed and broadcast it.
    Broadcast,
    /// Settle the reservation with the broadcast's transaction id.
    Settle { txid: String },
    /// Done: the transaction id, or why there is none.
    Finish(Result<String, String>),
}

/// What the work asked for gave.
#[derive(Debug, PartialEq, Eq)]
pub enum AccountEvent {
    PolicyLoaded(Result<(), String>),
    RateChecked(Result<(), String>),
    Reserved(Result<(), String>),
    Broadcasted(Result<String, String>),
    Settled(Result<(), String>),
}

/// Where an accounted broadcast stands.
#[derive(Debug, Clone, PartialEq, Eq)]
pub enum AccountStage {
    Policy,
    RateLimit,
    Reserve,
    Broadcast,
    Settle(String),
    Done,
}

/// A broadcast that is accounted for: the wallet must still be unlocked; the policy is loaded
/// again and its rate limit checked; the spend is reserved in the daily ledger before it is
/// signed and broadcast, and settled with the transaction id afterwards. A failed broadcast may
/// still have reached the network, so its reservation is never released and the payment is
/// never retried.
#[derive(Debug, Clone, PartialEq, Eq)]
pub struct AccountedBroadcast {
    stage: AccountStage,
    address: String,
    amount: u64,
    fee: u64,
    context_id: Option<String>,
}

impl AccountedBroadcast {
    /// Where the broadcast stands.
    pub closed spec fn stage(&self) -> AccountStage {
        self.stage
    }

    /// The send: address, amount, fee, context.
    pub closed spec fn send(&self) -> (String, u64, u64, Option<String>) {
        (self.address, self.amount, self.fee, self.context_id)
    }

    /// The event that the current stage waits for.
    pub open spec fn expects(&self, event: AccountEvent) -> bool {
        match (self.stage(), event) {
            (AccountStage::Policy, AccountEvent::PolicyLoaded(_)) => true,
            (AccountStage::RateLimit, AccountEvent::RateChecked(_)) => true,
            (AccountStage::Reserve, AccountEvent::Reserved(_)) => true,
            (AccountStage::Broadcast, AccountEvent::Broadcasted(_)) => true,
            (AccountStage::Settle(_), AccountEvent::Settled(_)) => true,
            _ => false,
        }
    }

    /// Takes the result of the work last asked for and says what to do next. Nothing is
    /// broadcast before the spend is reserved, and a failed broadcast ends the payment.
    pub fn step(&mut self, event: AccountEvent) -> (action: AccountAction)
        requires
            old(self).expects(event),
        ensures
            final(self).send() == old(self).send(),
            action == AccountAction::Broadcast ==> {
                &&& old(self).stage() == AccountStage::Reserve
                &&& event matches AccountEvent::Reserved(Ok(_))
            },
            match (old(self).stage(), event) {
                (AccountStage::Policy, AccountEvent::PolicyLoaded(Err(e))) => {
                    &&& final(self).stage() == AccountStage::Done
                    &&& action == AccountAction::Finish(Err(e))
                },
                (AccountStage::Policy, AccountEvent::PolicyLoaded(Ok(_))) => {
                    &&& final(self).stage() == AccountStage::RateLimit
                    &&& action == AccountAction::CheckRateLimit
                },
                (AccountStage::RateLimit, AccountEvent::RateChecked(Err(v))) => {
                    &&& final(self).stage() == AccountStage::Done
                    &&& action == AccountAction::Finish(Err(v))
                },
                (AccountStage::RateLimit, AccountEvent::RateChecked(Ok(_))) => {
                    &&& final(self).stage() == AccountStage::Reserve
                    &&& action == AccountAction::Reserve {
                        address: old(self).send().0,
                        amount: old(self).send().1,
                        fee: old(self).send().2,
                        context_id: old(self).send().3,
                    }
                },
                (AccountStage::Reserve, AccountEvent::Reserved(Err(e))) => {
                    &&& final(self).stage() == AccountStage::Done
                    &&& action == AccountAction::Finish(Err(e))
                },
                (AccountStage::Reserve, AccountEvent::Reserved(Ok(_))) => {
                    &&& final(self).stage() == AccountStage::Broadcast
                    &&& action == AccountAction::Broadcast
                },
                (AccountStage::Broadcast, AccountEvent::Broadcasted(Err(e))) => {
                    &&& final(self).stage() == AccountStage::Done
                    &&& action == AccountAction::Finish(Err(e))
                },
                (AccountStage::Broadcast, AccountEvent::Broadcasted(Ok(txid))) => {
                    &&& final(self).stage() == AccountStage::Settle(txid)
                    &&& action == AccountAction::Settle { txid }
                },
                (AccountStage::Settle(_), AccountEvent::Settled(Err(e))) => {
                    &&& final(self).stage() == AccountStage::Done
                    &&& action == AccountAction::Finish(Err(e))
                },
                (AccountStage::Settle(txid), AccountEvent::Settled(Ok(_))) => {
                    &&& final(self).stage() == AccountStage::Done
                    &&& action == AccountAction::Finish(Ok(txid))
                },
                _ => false,
            },
    {
        let mut stage = AccountStage::Done;
        std::mem::swap(&mut stage, &mut self.stage);
        match (stage, event) {
            (_, AccountEvent::PolicyLoaded(Err(e))) | (_, AccountEvent::RateChecked(Err(e))) | (
                _,
                AccountEvent::Reserved(Err(e)),
            ) | (_, AccountEvent::Broadcasted(Err(e))) | (_, AccountEvent::Settled(Err(e))) => {
                AccountAction::Finish(Err(e))
            },
            (_, AccountEvent::PolicyLoaded(Ok(()))) => {
                self.stage = AccountStage::RateLimit;
                AccountAction::CheckRateLimit
            },
            (_, AccountEvent::RateChecked(Ok(()))) => {
                self.stage = AccountStage::Reserve;
                AccountAction::Reserve {
                    address: self.address.clone(),
                    amount: self.amount,
                    fee: self.fee,
                    context_id: copy_text(&self.context_id),
                }
            },
            (_, AccountEvent::Reserved(Ok(()))) => {
                self.stage = AccountStage::Broadcast;
                AccountAction::Broadcast
            },
            (_, AccountEvent::Broadcasted(Ok(txid))) => {
                self.stage = AccountStage::Settle(txid.clone());
                AccountAction::Settle { txid }
            },
            (AccountStage::Settle(txid), AccountEvent::Settled(Ok(()))) => AccountAction::Finish(Ok(txid)),
            _ => AccountAction::Finish(Err(String::new())),
        }
    }
}

/// Starts the accounted broadcast of `amount` plus `fee` to `address` under `context_id`: a
/// wallet locked since the send was reviewed is refused with `WALLET_LOCKED`; otherwise the
/// policy is loaded first.
pub fn confirm_accounted<S>(
    session: &SigningSession<S>,
    address: String,
    amount: u64,
    fee: u64,
    context_id: Option<String>,
) -> (res: (AccountedBroadcast, AccountAction))
    ensures
        res.0.send() == (address, amount, fee, context_id),
        session.locked_now() ==> {
            &&& res.0.stage() == AccountStage::Done
            &&& res.1 matches AccountAction::Finish(Err(m))
            &&& m@ == "WALLET_LOCKED"@
        },
        !session.locked_now() ==> res.0.stage() == AccountStage::Policy && res.1
            == AccountAction::LoadPolicy,
{
    if session.is_locked() {
        (
            AccountedBroadcast { stage: AccountStage::Done, address, amount, fee, context_id },
            AccountAction::Finish(Err(String::from_str("WALLET_LOCKED"))),
        )
    } else {
        (
            AccountedBroadcast { stage: AccountStage::Policy, address, amount, fee, context_id },
            AccountAction::LoadPolicy,
        )
    }
}

} // verus!
