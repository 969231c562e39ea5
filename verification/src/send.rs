//! The command line's send paths (`send propose`, `send confirm`, `x402 propose`, `x402 pay`,
//! `consolidate`). Each command is a small machine: it asks for one piece of outside work at a
//! time (syncing, loading the policy, asking the engine, reading the seed, broadcasting,
//! writing the audit log) and decides from the result what comes next. The command line
//! performs the work and hands the result back; the machine's last action says what the
//! command prints or fails with.
use vstd::prelude::*;

use crate::commands::{command_error_text, payment_body, CommandError};
use crate::config::{expected_network, Config, Network};
use crate::text::trimmed;
use crate::tools::{copy_text, AuditAction, AuditEntry};
use crate::wallet::{pending_proposal, policy_unavailable_text, spend_policy, PendingProposal};

verus! {

/// What a command prints when it succeeds.
#[derive(Debug, Clone, PartialEq, Eq)]
pub enum CliOutput {
    /// A send proposal was saved for `send confirm`.
    Proposed { address: String, send_amount: u64, fee: u64, total: u64 },
    /// A send was signed and broadcast.
    Sent { txid: String, amount: u64, fee: u64, address: String },
    /// A paywall was paid; the signature goes into the retried request's header.
    Paid { txid: String, payment_signature: String, amount: u64, fee: u64, address: String },
    /// The wallet's notes were sent to its own address.
    Consolidated { txid: String, amount: u64, fee: u64 },
}

/// The work a command asks for next.
#[derive(Debug, PartialEq, Eq)]
pub enum CliAction {
    /// Make sure the Sapling proving parameters are on disk.
    EnsureParams,
    /// Sync the wallet if it is behind.
    SyncIfNeeded,
    /// Sync the wallet whether or not it looks behind.
    ForceSync,
    /// Open the wallet database.
    OpenWallet,
    /// Read the paywall body piped in on stdin.
    ReadStdin,
    /// Parse a 402 body for `network` and read the address to pay and the amount in zatoshi.
    ReadPaywall { body: String, network: String },
    /// Load the pending proposal saved by `send propose`.
    LoadPending,
    /// Load the spending policy; a missing or corrupt file is an error.
    LoadPolicy,
    /// Read today's spending from the audit log.
    ReadDailySpent,
    /// Judge a send against the policy.
    CheckProposal { address: String, amount: u64, context_id: Option<String>, daily_spent: u64 },
    /// Check the policy's minimum spacing between sends.
    CheckRateLimit,
    /// Write an audit entry (a failure to write is ignored); after a broadcast, also count it
    /// for the rate limit.
    Log { entry: AuditEntry, record_confirm: bool },
    /// Ask the engine to propose a send (nothing is signed).
    Propose { address: String, amount: u64, memo: Option<String>, is_max: bool, priority: bool },
    /// Save the pending proposal for `send confirm`.
    SavePending(PendingProposal),
    /// Run the confirm guard (`seed_for_confirm`) for the amount the engine will send; it reads
    /// the seed only if the policy passes that amount.
    Guard { pending: PendingProposal, send_amount: u64, fee: u64 },
    /// Read the seed from the vault.
    ReadSeed,
    /// Sign the proposed send with the seed and broadcast it.
    ConfirmSend,
    /// Remove the pending proposal.
    DeletePending,
    /// List the wallet's addresses.
    ListAddresses,
    /// Build the payment-signature header for the broadcast transaction.
    SignPayment { txid: String },
    /// The command is over: close the wallet first if `close`, then print the output or fail
    /// with the message.
    Finish { close: bool, result: Result<CliOutput, String> },
}

/// What the work asked for gave.
#[derive(Debug, PartialEq, Eq)]
pub enum CliEvent {
    ParamsReady(Result<(), String>),
    Synced(Result<(), String>),
    Opened(Result<(), String>),
    /// The text piped in on stdin.
    Piped(String),
    /// The address to pay and the amount, or why the body was refused.
    PaywallRead(Result<(String, u64), String>),
    PendingLoaded(Result<PendingProposal, String>),
    PolicyLoaded(Result<(), String>),
    /// Today's spending; an error if the audit log could not be read.
    DailySpent(Result<u64, String>),
    /// What the policy said of the send; when it refuses, the text of the rule broken.
    Verdict(Result<(), String>),
    RateChecked(Result<(), String>),
    Logged,
    /// The engine's send amount and fee.
    Proposed(Result<(u64, u64), String>),
    PendingSaved(Result<(), String>),
    /// The confirm guard's outcome: the seed was read, or the message it failed with.
    Guarded(Result<(), String>),
    SeedRead(Result<(), String>),
    /// The broadcast transaction's id.
    Broadcasted(Result<String, String>),
    PendingDeleted,
    AddressesListed(Result<Vec<String>, String>),
    PaymentSigned(String),
}

/// The network name a paywall must carry to be paid from a wallet on `network`.
pub open spec fn network_text(network: Network) -> Seq<char> {
    match network {
        Network::TestNetwork => "zcash:testnet"@,
        Network::MainNetwork => "zcash:mainnet"@,
    }
}

/// A command that fails with `message`, without closing the wallet.
pub open spec fn fail(message: String) -> CliAction {
    CliAction::Finish { close: false, result: Err(message) }
}

/// An audit entry for `address` and `amount`.
pub open spec fn audit(
    action: AuditAction,
    address: String,
    amount: u64,
    fee: Option<u64>,
    context_id: Option<String>,
    txid: Option<String>,
    error: Option<String>,
) -> AuditEntry {
    AuditEntry { action, address: Some(address), amount: Some(amount), fee, context_id, txid, error }
}

fn entry(
    action: AuditAction,
    address: &String,
    amount: u64,
    fee: Option<u64>,
    context_id: &Option<String>,
    txid: Option<String>,
    error: Option<String>,
) -> (e: AuditEntry)
    ensures
        e == audit(action, *address, amount, fee, *context_id, txid, error),
{
    AuditEntry {
        action,
        address: Some(address.clone()),
        amount: Some(amount),
        fee,
        context_id: copy_text(context_id),
        txid,
        error,
    }
}

/// A copy of a pending proposal.
pub fn copy_pending(p: &PendingProposal) -> (r: PendingProposal)
    ensures
        r == *p,
{
    PendingProposal {
        address: p.address.clone(),
        amount: p.amount,
        memo: copy_text(&p.memo),
        is_max: p.is_max,
        context_id: copy_text(&p.context_id),
    }
}

fn network_of(cfg: &Config) -> (s: String)
    ensures
        s@ == network_text(cfg.network),
{
    String::from_str(expected_network(cfg))
}

fn no_body() -> (m: String)
    ensures
        m@ == command_error_text(CommandError::NoPaymentBody),
{
    CommandError::NoPaymentBody.describe()
}

// ---------------------------------------------------------------------------------------------
// send propose, x402 propose
// ---------------------------------------------------------------------------------------------

/// What a send proposal asks for.
#[derive(Debug, Clone, PartialEq, Eq)]
pub struct SendRequest {
    pub to: String,
    pub amount: u64,
    pub is_max: bool,
    pub memo: Option<String>,
    pub context_id: Option<String>,
    pub priority: bool,
}

/// Where a proposal stands.
#[derive(Debug, Clone, PartialEq, Eq)]
pub enum ProposeStage {
    ReadBody,
    Paywall,
    Sync,
    Policy,
    DailySpent,
    Verdict,
    Refusing(String),
    Open,
    Engine,
    Saving { send_amount: u64, fee: u64 },
    Recording { send_amount: u64, fee: u64 },
    Done,
}

/// `send propose`: the wallet is synced; the policy must load; unless the send is `--max`
/// (whose amount is not known until the engine proposes it), today's spending must be read (an
/// unreadable audit log refuses: policy before signer, fail closed) and the policy must pass
/// the amount first, and a refusal is written to the audit log. Only then is the engine asked; the pending
/// proposal records the engine's amount for a `--max` send and the asked amount otherwise, and
/// the proposal is written to the audit log. Nothing is signed.
#[derive(Debug, Clone, PartialEq, Eq)]
pub struct SendPropose {
    stage: ProposeStage,
    network: String,
    request: SendRequest,
}

impl SendPropose {
    /// Where the proposal stands.
    pub closed spec fn stage(&self) -> ProposeStage {
        self.stage
    }

    /// The send asked for (for a paywall, once its body has been read).
    pub closed spec fn request(&self) -> SendRequest {
        self.request
    }

    /// The network a paywall must name.
    pub closed spec fn network(&self) -> Seq<char> {
        self.network@
    }

    /// The event that the current stage waits for. The proposal's total, the engine's amount
    /// and fee, must fit in a `u64`.
    pub open spec fn expects(&self, event: CliEvent) -> bool {
        match (self.stage(), event) {
            (ProposeStage::ReadBody, CliEvent::Piped(_)) => true,
            (ProposeStage::Paywall, CliEvent::PaywallRead(_)) => true,
            (ProposeStage::Sync, CliEvent::Synced(_)) => true,
            (ProposeStage::Policy, CliEvent::PolicyLoaded(_)) => true,
            (ProposeStage::DailySpent, CliEvent::DailySpent(_)) => true,
            (ProposeStage::Verdict, CliEvent::Verdict(_)) => true,
            (ProposeStage::Refusing(_), CliEvent::Logged) => true,
            (ProposeStage::Open, CliEvent::Opened(_)) => true,
            (ProposeStage::Engine, CliEvent::Proposed(_)) => true,
            (ProposeStage::Saving { .. }, CliEvent::PendingSaved(_)) => true,
            (ProposeStage::Recording { send_amount, fee }, CliEvent::Logged) => send_amount + fee
                <= u64::MAX,
            _ => false,
        }
    }

    /// Takes the result of the work last asked for and says what to do next. The engine is
    /// asked only after the policy loaded and, for a send with a known amount, passed it.
    pub fn step(&mut self, event: CliEvent) -> (action: CliAction)
        requires
            old(self).expects(event),
        ensures
            final(self).network() == old(self).network(),
            !(event matches CliEvent::PaywallRead(Ok(_))) ==> final(self).request() == old(
                self,
            ).request(),
            action is Propose ==> {
                &&& old(self).stage() == ProposeStage::Open
                &&& (!old(self).request().is_max ==> old(self).request() == final(self).request())
            },
            match (old(self).stage(), event) {
                (ProposeStage::ReadBody, CliEvent::Piped(text)) => if trimmed(text@).len() == 0 {
                    &&& final(self).stage() == ProposeStage::Done
                    &&& action matches CliAction::Finish { close, result: Err(m) }
                    &&& !close
                    &&& m@ == command_error_text(CommandError::NoPaymentBody)
                } else {
                    &&& final(self).stage() == ProposeStage::Paywall
                    &&& action matches CliAction::ReadPaywall { body, network }
                    &&& body@ == trimmed(text@)
                    &&& network@ == old(self).network()
                },
                (ProposeStage::Paywall, CliEvent::PaywallRead(Err(e))) => {
                    &&& final(self).stage() == ProposeStage::Done
                    &&& action == fail(e)
                },
                (ProposeStage::Paywall, CliEvent::PaywallRead(Ok((pay_to, amount)))) => {
                    &&& final(self).stage() == ProposeStage::Sync
                    &&& final(self).request() == SendRequest {
                        to: pay_to,
                        amount,
                        ..old(self).request()
                    }
                    &&& action == CliAction::SyncIfNeeded
                },
                (ProposeStage::Sync, CliEvent::Synced(Err(e))) => {
                    &&& final(self).stage() == ProposeStage::Done
                    &&& action == fail(e)
                },
                (ProposeStage::Sync, CliEvent::Synced(Ok(_))) => {
                    &&& final(self).stage() == ProposeStage::Policy
                    &&& final(self).request() == old(self).request()
                    &&& action == CliAction::LoadPolicy
                },
                (ProposeStage::Policy, CliEvent::PolicyLoaded(Err(e))) => {
                    &&& final(self).stage() == ProposeStage::Done
                    &&& action matches CliAction::Finish { close, result: Err(m) }
                    &&& !close
                    &&& m@ == policy_unavailable_text(e@)
                },
                (ProposeStage::Policy, CliEvent::PolicyLoaded(Ok(_))) => {
                    &&& final(self).request() == old(self).request()
                    &&& if old(self).request().is_max {
                        final(self).stage() == ProposeStage::Open && action == CliAction::OpenWallet
                    } else {
                        final(self).stage() == ProposeStage::DailySpent && action
                            == CliAction::ReadDailySpent
                    }
                },
                (ProposeStage::DailySpent, CliEvent::DailySpent(Err(e))) => {
                    &&& final(self).stage() == ProposeStage::Done
                    &&& action == fail(e)
                },
                (ProposeStage::DailySpent, CliEvent::DailySpent(Ok(d))) => {
                    &&& final(self).stage() == ProposeStage::Verdict
                    &&& final(self).request() == old(self).request()
                    &&& action == CliAction::CheckProposal {
                        address: old(self).request().to,
                        amount: old(self).request().amount,
                        context_id: old(self).request().context_id,
                        daily_spent: d,
                    }
                },
                (ProposeStage::Verdict, CliEvent::Verdict(Err(v))) => {
                    &&& final(self).stage() == ProposeStage::Refusing(v)
                    &&& action == CliAction::Log {
                        entry: audit(
                            AuditAction::ProposeSend,
                            old(self).request().to,
                            old(self).request().amount,
                            None,
                            old(self).request().context_id,
                            None,
                            Some(v),
                        ),
                        record_confirm: false,
                    }
                },
                (ProposeStage::Verdict, CliEvent::Verdict(Ok(_))) => {
                    &&& final(self).stage() == ProposeStage::Open
                    &&& final(self).request() == old(self).request()
                    &&& action == CliAction::OpenWallet
                },
                (ProposeStage::Refusing(v), CliEvent::Logged) => {
                    &&& final(self).stage() == ProposeStage::Done
                    &&& action == fail(v)
                },
                (ProposeStage::Open, CliEvent::Opened(Err(e))) => {
                    &&& final(self).stage() == ProposeStage::Done
                    &&& action == fail(e)
                },
                (ProposeStage::Open, CliEvent::Opened(Ok(_))) => {
                    &&& final(self).stage() == ProposeStage::Engine
                    &&& final(self).request() == old(self).request()
                    &&& action == CliAction::Propose {
                        address: old(self).request().to,
                        amount: old(self).request().amount,
                        memo: old(self).request().memo,
                        is_max: old(self).request().is_max,
                        priority: old(self).request().priority,
                    }
                },
                (ProposeStage::Engine, CliEvent::Proposed(Err(e))) => {
                    &&& final(self).stage() == ProposeStage::Done
                    &&& action == fail(e)
                },
                (ProposeStage::Engine, CliEvent::Proposed(Ok((send_amount, fee)))) => {
                    &&& final(self).stage() == ProposeStage::Saving { send_amount, fee }
                    &&& final(self).request() == old(self).request()
                    &&& action == CliAction::SavePending(
                        PendingProposal {
                            address: old(self).request().to,
                            amount: if old(self).request().is_max {
                                send_amount
                            } else {
                                old(self).request().amount
                            },
                            memo: old(self).request().memo,
                            is_max: old(self).request().is_max,
                            context_id: old(self).request().context_id,
                        },
                    )
                },
                (ProposeStage::Saving { .. }, CliEvent::PendingSaved(Err(e))) => {
                    &&& final(self).stage() == ProposeStage::Done
                    &&& action == fail(e)
                },
                (ProposeStage::Saving { send_amount, fee }, CliEvent::PendingSaved(Ok(_))) => {
                    &&& final(self).stage() == ProposeStage::Recording { send_amount, fee }
                    &&& final(self).request() == old(self).request()
                    &&& action == CliAction::Log {
                        entry: audit(
                            AuditAction::ProposeSend,
                            old(self).request().to,
                            send_amount,
                            Some(fee),
                            old(self).request().context_id,
                            None,
                            None,
                        ),
                        record_confirm: false,
                    }
                },
                (ProposeStage::Recording { send_amount, fee }, CliEvent::Logged) => {
                    &&& final(self).stage() == ProposeStage::Done
                    &&& action == CliAction::Finish {
                        close: true,
                        result: Ok(
                            CliOutput::Proposed {
                                address: old(self).request().to,
                                send_amount,
                                fee,
                                total: (send_amount + fee) as u64,
                            },
                        ),
                    }
                },
                _ => false,
            },
    {
        match event {
            CliEvent::Piped(text) => match payment_body(None, text.as_str()) {
                Err(_) => {
                    self.stage = ProposeStage::Done;
                    CliAction::Finish { close: false, result: Err(no_body()) }
                },
                Ok(body) => {
                    self.stage = ProposeStage::Paywall;
                    CliAction::ReadPaywall { body, network: self.network.clone() }
                },
            },
            CliEvent::PaywallRead(Err(e)) => {
                self.stage = ProposeStage::Done;
                CliAction::Finish { close: false, result: Err(e) }
            },
            CliEvent::PaywallRead(Ok((pay_to, amount))) => {
                self.request.to = pay_to;
                self.request.amount = amount;
                self.stage = ProposeStage::Sync;
                CliAction::SyncIfNeeded
            },
            CliEvent::Synced(Err(e)) => {
                self.stage = ProposeStage::Done;
                CliAction::Finish { close: false, result: Err(e) }
            },
            CliEvent::Synced(Ok(())) => {
                self.stage = ProposeStage::Policy;
                CliAction::LoadPolicy
            },
            CliEvent::PolicyLoaded(r) => match spend_policy(r) {
                Err(m) => {
                    self.stage = ProposeStage::Done;
                    CliAction::Finish { close: false, result: Err(m) }
                },
                Ok(()) => if self.request.is_max {
                    self.stage = ProposeStage::Open;
                    CliAction::OpenWallet
                } else {
                    self.stage = ProposeStage::DailySpent;
                    CliAction::ReadDailySpent
                },
            },
            CliEvent::DailySpent(Err(e)) => {
                self.stage = ProposeStage::Done;
                CliAction::Finish { close: false, result: Err(e) }
            },
            CliEvent::DailySpent(Ok(daily_spent)) => {
                self.stage = ProposeStage::Verdict;
                CliAction::CheckProposal {
                    address: self.request.to.clone(),
                    amount: self.request.amount,
                    context_id: copy_text(&self.request.context_id),
                    daily_spent,
                }
            },
            CliEvent::Verdict(Err(v)) => {
                let e = entry(
                    AuditAction::ProposeSend,
                    &self.request.to,
                    self.request.amount,
                    None,
                    &self.request.context_id,
                    None,
                    Some(v.clone()),
                );
                self.stage = ProposeStage::Refusing(v);
                CliAction::Log { entry: e, record_confirm: false }
            },
            CliEvent::Verdict(Ok(())) => {
                self.stage = ProposeStage::Open;
                CliAction::OpenWallet
            },
            CliEvent::Opened(Err(e)) => {
                self.stage = ProposeStage::Done;
                CliAction::Finish { close: false, result: Err(e) }
            },
            CliEvent::Opened(Ok(())) => {
                self.stage = ProposeStage::Engine;
                CliAction::Propose {
                    address: self.request.to.clone(),
                    amount: self.request.amount,
                    memo: copy_text(&self.request.memo),
                    is_max: self.request.is_max,
                    priority: self.request.priority,
                }
            },
            CliEvent::Proposed(Err(e)) => {
                self.stage = ProposeStage::Done;
                CliAction::Finish { close: false, result: Err(e) }
            },
            CliEvent::Proposed(Ok((send_amount, fee))) => {
                self.stage = ProposeStage::Saving { send_amount, fee };
                CliAction::SavePending(
                    pending_proposal(
                        self.request.to.clone(),
                        self.request.amount,
                        copy_text(&self.request.memo),
                        self.request.is_max,
                        copy_text(&self.request.context_id),
                        send_amount,
                    ),
                )
            },
            CliEvent::PendingSaved(Err(e)) => {
                self.stage = ProposeStage::Done;
                CliAction::Finish { close: false, result: Err(e) }
            },
            CliEvent::PendingSaved(Ok(())) => {
                let (send_amount, fee) = match &self.stage {
                    ProposeStage::Saving { send_amount, fee } => (*send_amount, *fee),
                    _ => (0, 0),
                };
                self.stage = ProposeStage::Recording { send_amount, fee };
                CliAction::Log {
                    entry: entry(
                        AuditAction::ProposeSend,
                        &self.request.to,
                        send_amount,
                        Some(fee),
                        &self.request.context_id,
                        None,
                        None,
                    ),
                    record_confirm: false,
                }
            },
            CliEvent::Logged => match &self.stage {
                ProposeStage::Refusing(v) => {
                    let v = v.clone();
                    self.stage = ProposeStage::Done;
                    CliAction::Finish { close: false, result: Err(v) }
                },
                _ => {
                    let (send_amount, fee) = match &self.stage {
                        ProposeStage::Recording { send_amount, fee } => (*send_amount, *fee),
                        _ => (0, 0),
                    };
                    self.stage = ProposeStage::Done;
                    CliAction::Finish {
                        close: true,
                        result: Ok(
                            CliOutput::Proposed {
                                address: self.request.to.clone(),
                                send_amount,
                                fee,
                                total: send_amount + fee,
                            },
                        ),
                    }
                },
            },
            _ => CliAction::Finish { close: false, result: Err(String::new()) },
        }
    }
}

/// `send propose`: proposes a send of `amount` zatoshi (or, with `is_max`, of everything
/// spendable) to `to`; the first step is to sync the wallet if it is behind.
pub fn cmd_send_propose(
    cfg: &Config,
    to: String,
    amount: u64,
    is_max: bool,
    memo: Option<String>,
    context_id: Option<String>,
    priority: bool,
) -> (res: (SendPropose, CliAction))
    ensures
        res.0.stage() == ProposeStage::Sync,
        res.0.request() == (SendRequest { to, amount, is_max, memo, context_id, priority }),
        res.0.network() == network_text(cfg.network),
        res.1 == CliAction::SyncIfNeeded,
{
    (
        SendPropose {
            stage: ProposeStage::Sync,
            network: network_of(cfg),
            request: SendRequest { to, amount, is_max, memo, context_id, priority },
        },
        CliAction::SyncIfNeeded,
    )
}

/// `x402 propose`: proposes a send that pays a paywall. The 402 body is the one given, or else
/// the one piped in on stdin; it is read for the wallet's network, and the address and amount
/// it names are then proposed as `send propose` would, without a memo, `--max` or priority fee.
pub fn cmd_x402_propose(cfg: &Config, body: Option<String>, context_id: Option<String>) -> (res: (
    SendPropose,
    CliAction,
))
    ensures
        res.0.request().to@ == Seq::<char>::empty(),
        res.0.request().amount == 0,
        !res.0.request().is_max,
        res.0.request().memo is None,
        res.0.request().context_id == context_id,
        !res.0.request().priority,
        res.0.network() == network_text(cfg.network),
        body is None ==> res.0.stage() == ProposeStage::ReadBody && res.1 == CliAction::ReadStdin,
        body matches Some(b) ==> {
            &&& res.0.stage() == ProposeStage::Paywall
            &&& res.1 matches CliAction::ReadPaywall { body: given, network }
            &&& given == b
            &&& network@ == network_text(cfg.network)
        },
{
    let network = network_of(cfg);
    let request = SendRequest {
        to: String::new(),
        amount: 0,
        is_max: false,
        memo: None,
        context_id,
        priority: false,
    };
    match body {
        None => (SendPropose { stage: ProposeStage::ReadBody, network, request }, CliAction::ReadStdin),
        Some(b) => {
            let n = network.clone();
            (
                SendPropose { stage: ProposeStage::Paywall, network, request },
                CliAction::ReadPaywall { body: b, network: n },
            )
        },
    }
}

// ---------------------------------------------------------------------------------------------
// send confirm
// ---------------------------------------------------------------------------------------------

/// Where a confirmation stands.
#[derive(Debug, Clone, PartialEq, Eq)]
pub enum ConfirmStage {
    Params,
    Sync,
    Pending,
    Policy,
    RateLimit,
    Refusing(String),
    Open,
    Engine,
    Guard { send_amount: u64, fee: u64 },
    Broadcast { send_amount: u64, fee: u64 },
    Recording { txid: String, send_amount: u64, fee: u64 },
    Deleting { txid: String, send_amount: u64, fee: u64 },
    Done,
}

/// `send confirm`: the proving parameters are in place and the wallet synced; the pending
/// proposal loads; the policy must load and its rate limit pass (a refusal is written to the
/// audit log); the engine proposes the send again, and the confirm guard judges the amount it
/// will actually send before the seed is read. Only then is the send signed and broadcast; the
/// broadcast, or its failure, is written to the audit log, and the pending proposal is removed
/// only after a broadcast.
#[derive(Debug, Clone, PartialEq, Eq)]
pub struct SendConfirm {
    stage: ConfirmStage,
    pending: PendingProposal,
}

impl SendConfirm {
    /// Where the confirmation stands.
    pub closed spec fn stage(&self) -> ConfirmStage {
        self.stage
    }

    /// The pending proposal being confirmed (once loaded).
    pub closed spec fn pending(&self) -> PendingProposal {
        self.pending
    }

    /// The event that the current stage waits for.
    pub open spec fn expects(&self, event: CliEvent) -> bool {
        match (self.stage(), event) {
            (ConfirmStage::Params, CliEvent::ParamsReady(_)) => true,
            (ConfirmStage::Sync, CliEvent::Synced(_)) => true,
            (ConfirmStage::Pending, CliEvent::PendingLoaded(_)) => true,
            (ConfirmStage::Policy, CliEvent::PolicyLoaded(_)) => true,
            (ConfirmStage::RateLimit, CliEvent::RateChecked(_)) => true,
            (ConfirmStage::Refusing(_), CliEvent::Logged) => true,
            (ConfirmStage::Open, CliEvent::Opened(_)) => true,
            (ConfirmStage::Engine, CliEvent::Proposed(_)) => true,
            (ConfirmStage::Guard { .. }, CliEvent::Guarded(_)) => true,
            (ConfirmStage::Broadcast { .. }, CliEvent::Broadcasted(_)) => true,
            (ConfirmStage::Recording { .. }, CliEvent::Logged) => true,
            (ConfirmStage::Deleting { .. }, CliEvent::PendingDeleted) => true,
            _ => false,
        }
    }

    /// Takes the result of the work last asked for and says what to do next. Nothing is signed
    /// before the rate limit and the confirm guard have passed.
    pub fn step(&mut self, event: CliEvent) -> (action: CliAction)
        requires
            old(self).expects(event),
        ensures
            !(event matches CliEvent::PendingLoaded(Ok(_))) ==> final(self).pending() == old(
                self,
            ).pending(),
            action == CliAction::ConfirmSend ==> {
                &&& old(self).stage() is Guard
                &&& event matches CliEvent::Guarded(Ok(_))
            },
            action is Guard ==> {
                &&& old(self).stage() == ConfirmStage::Engine
                &&& event matches CliEvent::Proposed(Ok(_))
            },
            match (old(self).stage(), event) {
                (ConfirmStage::Params, CliEvent::ParamsReady(Err(e))) => {
                    &&& final(self).stage() == ConfirmStage::Done
                    &&& action == fail(e)
                },
                (ConfirmStage::Params, CliEvent::ParamsReady(Ok(_))) => {
                    &&& final(self).stage() == ConfirmStage::Sync
                    &&& final(self).pending() == old(self).pending()
                    &&& action == CliAction::SyncIfNeeded
                },
                (ConfirmStage::Sync, CliEvent::Synced(Err(e))) => {
                    &&& final(self).stage() == ConfirmStage::Done
                    &&& action == fail(e)
                },
                (ConfirmStage::Sync, CliEvent::Synced(Ok(_))) => {
                    &&& final(self).stage() == ConfirmStage::Pending
                    &&& final(self).pending() == old(self).pending()
                    &&& action == CliAction::LoadPending
                },
                (ConfirmStage::Pending, CliEvent::PendingLoaded(Err(e))) => {
                    &&& final(self).stage() == ConfirmStage::Done
                    &&& action == fail(e)
                },
                (ConfirmStage::Pending, CliEvent::PendingLoaded(Ok(p))) => {
                    &&& final(self).stage() == ConfirmStage::Policy
                    &&& final(self).pending() == p
                    &&& action == CliAction::LoadPolicy
                },
                (ConfirmStage::Policy, CliEvent::PolicyLoaded(Err(e))) => {
                    &&& final(self).stage() == ConfirmStage::Done
                    &&& action matches CliAction::Finish { close, result: Err(m) }
                    &&& !close
                    &&& m@ == policy_unavailable_text(e@)
                },
                (ConfirmStage::Policy, CliEvent::PolicyLoaded(Ok(_))) => {
                    &&& final(self).stage() == ConfirmStage::RateLimit
                    &&& final(self).pending() == old(self).pending()
                    &&& action == CliAction::CheckRateLimit
                },
                (ConfirmStage::RateLimit, CliEvent::RateChecked(Err(v))) => {
                    &&& final(self).stage() == ConfirmStage::Refusing(v)
                    &&& action == CliAction::Log {
                        entry: audit(
                            AuditAction::ConfirmSend,
                            old(self).pending().address,
                            old(self).pending().amount,
                            None,
                            old(self).pending().context_id,
                            None,
                            Some(v),
                        ),
                        record_confirm: false,
                    }
                },
                (ConfirmStage::RateLimit, CliEvent::RateChecked(Ok(_))) => {
                    &&& final(self).stage() == ConfirmStage::Open
                    &&& final(self).pending() == old(self).pending()
                    &&& action == CliAction::OpenWallet
                },
                (ConfirmStage::Refusing(v), CliEvent::Logged) => {
                    &&& final(self).stage() == ConfirmStage::Done
                    &&& action == fail(v)
                },
                (ConfirmStage::Open, CliEvent::Opened(Err(e))) => {
                    &&& final(self).stage() == ConfirmStage::Done
                    &&& action == fail(e)
                },
                (ConfirmStage::Open, CliEvent::Opened(Ok(_))) => {
                    &&& final(self).stage() == ConfirmStage::Engine
                    &&& final(self).pending() == old(self).pending()
                    &&& action == CliAction::Propose {
                        address: old(self).pending().address,
                        amount: old(self).pending().amount,
                        memo: old(self).pending().memo,
                        is_max: old(self).pending().is_max,
                        priority: false,
                    }
                },
                (ConfirmStage::Engine, CliEvent::Proposed(Err(e))) => {
                    &&& final(self).stage() == ConfirmStage::Done
                    &&& action == fail(e)
                },
                (ConfirmStage::Engine, CliEvent::Proposed(Ok((send_amount, fee)))) => {
                    &&& final(self).stage() == ConfirmStage::Guard { send_amount, fee }
                    &&& final(self).pending() == old(self).pending()
                    &&& action == CliAction::Guard { pending: old(self).pending(), send_amount, fee }
                },
                (ConfirmStage::Guard { .. }, CliEvent::Guarded(Err(e))) => {
                    &&& final(self).stage() == ConfirmStage::Done
                    &&& action == CliAction::Finish { close: true, result: Err(e) }
                },
                (ConfirmStage::Guard { send_amount, fee }, CliEvent::Guarded(Ok(_))) => {
                    &&& final(self).stage() == ConfirmStage::Broadcast { send_amount, fee }
                    &&& final(self).pending() == old(self).pending()
                    &&& action == CliAction::ConfirmSend
                },
                (ConfirmStage::Broadcast { send_amount, fee }, CliEvent::Broadcasted(Ok(txid))) => {
                    &&& final(self).stage() == ConfirmStage::Recording { txid, send_amount, fee }
                    &&& final(self).pending() == old(self).pending()
                    &&& action == CliAction::Log {
                        entry: audit(
                            AuditAction::ConfirmSend,
                            old(self).pending().address,
                            send_amount,
                            Some(fee),
                            old(self).pending().context_id,
                            Some(txid),
                            None,
                        ),
                        record_confirm: true,
                    }
                },
                (ConfirmStage::Broadcast { send_amount, fee }, CliEvent::Broadcasted(Err(e))) => {
                    &&& final(self).stage() == ConfirmStage::Refusing(e)
                    &&& action == CliAction::Log {
                        entry: audit(
                            AuditAction::ConfirmSend,
                            old(self).pending().address,
                            send_amount,
                            Some(fee),
                            old(self).pending().context_id,
                            None,
                            Some(e),
                        ),
                        record_confirm: false,
                    }
                },
                (ConfirmStage::Recording { txid, send_amount, fee }, CliEvent::Logged) => {
                    &&& final(self).stage() == ConfirmStage::Deleting { txid, send_amount, fee }
                    &&& final(self).pending() == old(self).pending()
                    &&& action == CliAction::DeletePending
                },
                (ConfirmStage::Deleting { txid, send_amount, fee }, CliEvent::PendingDeleted) => {
                    &&& final(self).stage() == ConfirmStage::Done
                    &&& action == CliAction::Finish {
                        close: true,
                        result: Ok(
                            CliOutput::Sent {
                                txid,
                                amount: send_amount,
                                fee,
                                address: old(self).pending().address,
                            },
                        ),
                    }
                },
                _ => false,
            },
    {
        match event {
            CliEvent::ParamsReady(Err(e)) | CliEvent::Synced(Err(e)) | CliEvent::PendingLoaded(
                Err(e),
            ) | CliEvent::Opened(Err(e)) | CliEvent::Proposed(Err(e)) => {
                self.stage = ConfirmStage::Done;
                CliAction::Finish { close: false, result: Err(e) }
            },
            CliEvent::ParamsReady(Ok(())) => {
                self.stage = ConfirmStage::Sync;
                CliAction::SyncIfNeeded
            },
            CliEvent::Synced(Ok(())) => {
                self.stage = ConfirmStage::Pending;
                CliAction::LoadPending
            },
            CliEvent::PendingLoaded(Ok(p)) => {
                self.pending = p;
                self.stage = ConfirmStage::Policy;
                CliAction::LoadPolicy
            },
            CliEvent::PolicyLoaded(r) => match spend_policy(r) {
                Err(m) => {
                    self.stage = ConfirmStage::Done;
                    CliAction::Finish { close: false, result: Err(m) }
                },
                Ok(()) => {
                    self.stage = ConfirmStage::RateLimit;
                    CliAction::CheckRateLimit
                },
            },
            CliEvent::RateChecked(Err(v)) => {
                let e = entry(
                    AuditAction::ConfirmSend,
                    &self.pending.address,
                    self.pending.amount,
                    None,
                    &self.pending.context_id,
                    None,
                    Some(v.clone()),
                );
                self.stage = ConfirmStage::Refusing(v);
                CliAction::Log { entry: e, record_confirm: false }
            },
            CliEvent::RateChecked(Ok(())) => {
                self.stage = ConfirmStage::Open;
                CliAction::OpenWallet
            },
            CliEvent::Opened(Ok(())) => {
                self.stage = ConfirmStage::Engine;
                CliAction::Propose {
                    address: self.pending.address.clone(),
                    amount: self.pending.amount,
                    memo: copy_text(&self.pending.memo),
                    is_max: self.pending.is_max,
                    priority: false,
                }
            },
            CliEvent::Proposed(Ok((send_amount, fee))) => {
                self.stage = ConfirmStage::Guard { send_amount, fee };
                CliAction::Guard { pending: copy_pending(&self.pending), send_amount, fee }
            },
            CliEvent::Guarded(Err(e)) => {
                self.stage = ConfirmStage::Done;
                CliAction::Finish { close: true, result: Err(e) }
            },
            CliEvent::Guarded(Ok(())) => {
                let (send_amount, fee) = match &self.stage {
                    ConfirmStage::Guard { send_amount, fee } => (*send_amount, *fee),
                    _ => (0, 0),
                };
                self.stage = ConfirmStage::Broadcast { send_amount, fee };
                CliAction::ConfirmSend
            },
            CliEvent::Broadcasted(r) => {
                let (send_amount, fee) = match &self.stage {
                    ConfirmStage::Broadcast { send_amount, fee } => (*send_amount, *fee),
                    _ => (0, 0),
                };
                match r {
                    Ok(txid) => {
                        let e = entry(
                            AuditAction::ConfirmSend,
                            &self.pending.address,
                            send_amount,
                            Some(fee),
                            &self.pending.context_id,
                            Some(txid.clone()),
                            None,
                        );
                        self.stage = ConfirmStage::Recording { txid, send_amount, fee };
                        CliAction::Log { entry: e, record_confirm: true }
                    },
                    Err(err) => {
                        let e = entry(
                            AuditAction::ConfirmSend,
                            &self.pending.address,
                            send_amount,
                            Some(fee),
                            &self.pending.context_id,
                            None,
                            Some(err.clone()),
                        );
                        self.stage = ConfirmStage::Refusing(err);
                        CliAction::Log { entry: e, record_confirm: false }
                    },
                }
            },
            CliEvent::Logged => match &self.stage {
                ConfirmStage::Recording { txid, send_amount, fee } => {
                    let (txid, send_amount, fee) = (txid.clone(), *send_amount, *fee);
                    self.stage = ConfirmStage::Deleting { txid, send_amount, fee };
                    CliAction::DeletePending
                },
                _ => {
                    let v = match &self.stage {
                        ConfirmStage::Refusing(v) => v.clone(),
                        _ => String::new(),
                    };
                    self.stage = ConfirmStage::Done;
                    CliAction::Finish { close: false, result: Err(v) }
                },
            },
            CliEvent::PendingDeleted => {
                let (txid, send_amount, fee) = match &self.stage {
                    ConfirmStage::Deleting { txid, send_amount, fee } => (txid.clone(), *send_amount, *fee),
                    _ => (String::new(), 0, 0),
                };
                self.stage = ConfirmStage::Done;
                CliAction::Finish {
                    close: true,
                    result: Ok(
                        CliOutput::Sent {
                            txid,
                            amount: send_amount,
                            fee,
                            address: self.pending.address.clone(),
                        },
                    ),
                }
            },
            _ => CliAction::Finish { close: false, result: Err(String::new()) },
        }
    }
}

/// `send confirm`: signs and broadcasts the pending proposal; the first step is to make sure
/// the proving parameters are in place.
pub fn cmd_send_confirm(cfg: &Config) -> (res: (SendConfirm, CliAction))
    ensures
        res.0.stage() == ConfirmStage::Params,
        res.1 == CliAction::EnsureParams,
{
    (
        SendConfirm {
            stage: ConfirmStage::Params,
            pending: PendingProposal {
                address: String::new(),
                amount: 0,
                memo: None,
                is_max: false,
                context_id: None,
            },
        },
        CliAction::EnsureParams,
    )
}

// ---------------------------------------------------------------------------------------------
// x402 pay
// ---------------------------------------------------------------------------------------------

/// Where a paywall payment stands.
#[derive(Debug, Clone, PartialEq, Eq)]
pub enum PayStage {
    Params,
    Sync,
    ReadBody,
    Paywall,
    Policy,
    DailySpent,
    Verdict,
    RateLimit,
    Refusing(String),
    Open,
    Engine,
    Seed { send_amount: u64, fee: u64 },
    Broadcast { send_amount: u64, fee: u64 },
    Recording { txid: String, send_amount: u64, fee: u64 },
    Deleting { txid: String, send_amount: u64, fee: u64 },
    Signing { txid: String, send_amount: u64, fee: u64 },
    Done,
}

/// `x402 pay`: the proving parameters are in place and the wallet synced; the 402 body (the
/// one given, or else the one piped in) is read for the wallet's network; the policy must load,
/// today's spending must be read (an unreadable audit log refuses: fail closed), and the policy
/// must pass the amount and its rate limit (a refusal is written to the audit log) before the
/// engine proposes the payment and before the seed is read. The broadcast, or its failure, is
/// written to the audit log; after a broadcast any pending proposal is removed and the payment
/// signature is built from the transaction id.
#[derive(Debug, Clone, PartialEq, Eq)]
pub struct X402Pay {
    stage: PayStage,
    network: String,
    body: Option<String>,
    context_id: Option<String>,
    address: String,
    amount: u64,
}

impl X402Pay {
    /// Where the payment stands.
    pub closed spec fn stage(&self) -> PayStage {
        self.stage
    }

    /// The network a paywall must name.
    pub closed spec fn network(&self) -> Seq<char> {
        self.network@
    }

    /// The body given on the command line, the context, and the address and amount the paywall
    /// asked for (once read).
    pub closed spec fn payment(&self) -> (Option<String>, Option<String>, String, u64) {
        (self.body, self.context_id, self.address, self.amount)
    }

    /// The event that the current stage waits for.
    pub open spec fn expects(&self, event: CliEvent) -> bool {
        match (self.stage(), event) {
            (PayStage::Params, CliEvent::ParamsReady(_)) => true,
            (PayStage::Sync, CliEvent::Synced(_)) => true,
            (PayStage::ReadBody, CliEvent::Piped(_)) => true,
            (PayStage::Paywall, CliEvent::PaywallRead(_)) => true,
            (PayStage::Policy, CliEvent::PolicyLoaded(_)) => true,
            (PayStage::DailySpent, CliEvent::DailySpent(_)) => true,
            (PayStage::Verdict, CliEvent::Verdict(_)) => true,
            (PayStage::RateLimit, CliEvent::RateChecked(_)) => true,
            (PayStage::Refusing(_), CliEvent::Logged) => true,
            (PayStage::Open, CliEvent::Opened(_)) => true,
            (PayStage::Engine, CliEvent::Proposed(_)) => true,
            (PayStage::Seed { .. }, CliEvent::SeedRead(_)) => true,
            (PayStage::Broadcast { .. }, CliEvent::Broadcasted(_)) => true,
            (PayStage::Recording { .. }, CliEvent::Logged) => true,
            (PayStage::Deleting { .. }, CliEvent::PendingDeleted) => true,
            (PayStage::Signing { .. }, CliEvent::PaymentSigned(_)) => true,
            _ => false,
        }
    }

    /// Takes the result of the work last asked for and says what to do next. The seed is read
    /// only after the policy passed the amount and its rate limit and the engine proposed the
    /// payment; nothing is signed before the seed was read.
    pub fn step(&mut self, event: CliEvent) -> (action: CliAction)
        requires
            old(self).expects(event),
        ensures
            final(self).network() == old(self).network(),
            final(self).payment().0 == old(self).payment().0,
            final(self).payment().1 == old(self).payment().1,
            !(event matches CliEvent::PaywallRead(Ok(_))) ==> final(self).payment() == old(
                self,
            ).payment(),
            action == CliAction::ReadSeed ==> {
                &&& old(self).stage() == PayStage::Engine
                &&& event matches CliEvent::Proposed(Ok(_))
            },
            action == CliAction::ConfirmSend ==> {
                &&& old(self).stage() is Seed
                &&& event matches CliEvent::SeedRead(Ok(_))
            },
            action is Propose ==> {
                &&& old(self).stage() == PayStage::Open
                &&& event matches CliEvent::Opened(Ok(_))
            },
            match (old(self).stage(), event) {
                (PayStage::Params, CliEvent::ParamsReady(Err(e))) => {
                    &&& final(self).stage() == PayStage::Done
                    &&& action == fail(e)
                },
                (PayStage::Params, CliEvent::ParamsReady(Ok(_))) => {
                    &&& final(self).stage() == PayStage::Sync
                    &&& action == CliAction::SyncIfNeeded
                },
                (PayStage::Sync, CliEvent::Synced(Err(e))) => {
                    &&& final(self).stage() == PayStage::Done
                    &&& action == fail(e)
                },
                (PayStage::Sync, CliEvent::Synced(Ok(_))) => match old(self).payment().0 {
                    Some(b) => {
                        &&& final(self).stage() == PayStage::Paywall
                        &&& action matches CliAction::ReadPaywall { body, network }
                        &&& body == b
                        &&& network@ == old(self).network()
                    },
                    None => {
                        &&& final(self).stage() == PayStage::ReadBody
                        &&& action == CliAction::ReadStdin
                    },
                },
                (PayStage::ReadBody, CliEvent::Piped(text)) => if trimmed(text@).len() == 0 {
                    &&& final(self).stage() == PayStage::Done
                    &&& action matches CliAction::Finish { close, result: Err(m) }
                    &&& !close
                    &&& m@ == command_error_text(CommandError::NoPaymentBody)
                } else {
                    &&& final(self).stage() == PayStage::Paywall
                    &&& action matches CliAction::ReadPaywall { body, network }
                    &&& body@ == trimmed(text@)
                    &&& network@ == old(self).network()
                },
                (PayStage::Paywall, CliEvent::PaywallRead(Err(e))) => {
                    &&& final(self).stage() == PayStage::Done
                    &&& action == fail(e)
                },
                (PayStage::Paywall, CliEvent::PaywallRead(Ok((pay_to, amount)))) => {
                    &&& final(self).stage() == PayStage::Policy
                    &&& final(self).payment().2 == pay_to
                    &&& final(self).payment().3 == amount
                    &&& action == CliAction::LoadPolicy
                },
                (PayStage::Policy, CliEvent::PolicyLoaded(Err(e))) => {
                    &&& final(self).stage() == PayStage::Done
                    &&& action matches CliAction::Finish { close, result: Err(m) }
                    &&& !close
                    &&& m@ == policy_unavailable_text(e@)
                },
                (PayStage::Policy, CliEvent::PolicyLoaded(Ok(_))) => {
                    &&& final(self).stage() == PayStage::DailySpent
                    &&& final(self).payment() == old(self).payment()
                    &&& action == CliAction::ReadDailySpent
                },
                (PayStage::DailySpent, CliEvent::DailySpent(Err(e))) => {
                    &&& final(self).stage() == PayStage::Done
                    &&& action == fail(e)
                },
                (PayStage::DailySpent, CliEvent::DailySpent(Ok(d))) => {
                    &&& final(self).stage() == PayStage::Verdict
                    &&& final(self).payment() == old(self).payment()
                    &&& action == CliAction::CheckProposal {
                        address: old(self).payment().2,
                        amount: old(self).payment().3,
                        context_id: old(self).payment().1,
                        daily_spent: d,
                    }
                },
                (PayStage::Verdict, CliEvent::Verdict(Err(v))) => {
                    &&& final(self).stage() == PayStage::Refusing(v)
                    &&& action == CliAction::Log {
                        entry: audit(
                            AuditAction::X402Pay,
                            old(self).payment().2,
                            old(self).payment().3,
                            None,
                            old(self).payment().1,
                            None,
                            Some(v),
                        ),
                        record_confirm: false,
                    }
                },
                (PayStage::Verdict, CliEvent::Verdict(Ok(_))) => {
                    &&& final(self).stage() == PayStage::RateLimit
                    &&& final(self).payment() == old(self).payment()
                    &&& action == CliAction::CheckRateLimit
                },
                (PayStage::RateLimit, CliEvent::RateChecked(Err(v))) => {
                    &&& final(self).stage() == PayStage::Refusing(v)
                    &&& action == CliAction::Log {
                        entry: audit(
                            AuditAction::X402Pay,
                            old(self).payment().2,
                            old(self).payment().3,
                            None,
                            old(self).payment().1,
                            None,
                            Some(v),
                        ),
                        record_confirm: false,
                    }
                },
                (PayStage::RateLimit, CliEvent::RateChecked(Ok(_))) => {
                    &&& final(self).stage() == PayStage::Open
                    &&& final(self).payment() == old(self).payment()
                    &&& action == CliAction::OpenWallet
                },
                (PayStage::Refusing(v), CliEvent::Logged) => {
                    &&& final(self).stage() == PayStage::Done
                    &&& action == fail(v)
                },
                (PayStage::Open, CliEvent::Opened(Err(e))) => {
                    &&& final(self).stage() == PayStage::Done
                    &&& action == fail(e)
                },
                (PayStage::Open, CliEvent::Opened(Ok(_))) => {
                    &&& final(self).stage() == PayStage::Engine
                    &&& final(self).payment() == old(self).payment()
                    &&& action == CliAction::Propose {
                        address: old(self).payment().2,
                        amount: old(self).payment().3,
                        memo: None,
                        is_max: false,
                        priority: false,
                    }
                },
                (PayStage::Engine, CliEvent::Proposed(Err(e))) => {
                    &&& final(self).stage() == PayStage::Done
                    &&& action == fail(e)
                },
                (PayStage::Engine, CliEvent::Proposed(Ok((send_amount, fee)))) => {
                    &&& final(self).stage() == PayStage::Seed { send_amount, fee }
                    &&& final(self).payment() == old(self).payment()
                    &&& action == CliAction::ReadSeed
                },
                (PayStage::Seed { .. }, CliEvent::SeedRead(Err(e))) => {
                    &&& final(self).stage() == PayStage::Done
                    &&& action == fail(e)
                },
                (PayStage::Seed { send_amount, fee }, CliEvent::SeedRead(Ok(_))) => {
                    &&& final(self).stage() == PayStage::Broadcast { send_amount, fee }
                    &&& final(self).payment() == old(self).payment()
                    &&& action == CliAction::ConfirmSend
                },
                (PayStage::Broadcast { send_amount, fee }, CliEvent::Broadcasted(Ok(txid))) => {
                    &&& final(self).stage() == PayStage::Recording { txid, send_amount, fee }
                    &&& final(self).payment() == old(self).payment()
                    &&& action == CliAction::Log {
                        entry: audit(
                            AuditAction::X402Pay,
                            old(self).payment().2,
                            send_amount,
                            Some(fee),
                            old(self).payment().1,
                            Some(txid),
                            None,
                        ),
                        record_confirm: true,
                    }
                },
                (PayStage::Broadcast { send_amount, fee }, CliEvent::Broadcasted(Err(e))) => {
                    &&& final(self).stage() == PayStage::Refusing(e)
                    &&& action == CliAction::Log {
                        entry: audit(
                            AuditAction::X402Pay,
                            old(self).payment().2,
                            send_amount,
                            Some(fee),
                            old(self).payment().1,
                            None,
                            Some(e),
                        ),
                        record_confirm: false,
                    }
                },
                (PayStage::Recording { txid, send_amount, fee }, CliEvent::Logged) => {
                    &&& final(self).stage() == PayStage::Deleting { txid, send_amount, fee }
                    &&& final(self).payment() == old(self).payment()
                    &&& action == CliAction::DeletePending
                },
                (PayStage::Deleting { txid, send_amount, fee }, CliEvent::PendingDeleted) => {
                    &&& final(self).stage() == PayStage::Signing { txid, send_amount, fee }
                    &&& final(self).payment() == old(self).payment()
                    &&& action == CliAction::SignPayment { txid }
                },
                (PayStage::Signing { txid, send_amount, fee }, CliEvent::PaymentSigned(sig)) => {
                    &&& final(self).stage() == PayStage::Done
                    &&& action == CliAction::Finish {
                        close: true,
                        result: Ok(
                            CliOutput::Paid {
                                txid,
                                payment_signature: sig,
                                amount: send_amount,
                                fee,
                                address: old(self).payment().2,
                            },
                        ),
                    }
                },
                _ => false,
            },
    {
        match event {
            CliEvent::ParamsReady(Err(e)) | CliEvent::Synced(Err(e)) | CliEvent::PaywallRead(
                Err(e),
            ) | CliEvent::Opened(Err(e)) | CliEvent::Proposed(Err(e)) | CliEvent::SeedRead(
                Err(e),
            ) => {
                self.stage = PayStage::Done;
                CliAction::Finish { close: false, result: Err(e) }
            },
            CliEvent::ParamsReady(Ok(())) => {
                self.stage = PayStage::Sync;
                CliAction::SyncIfNeeded
            },
            CliEvent::Synced(Ok(())) => match &self.body {
                Some(b) => {
                    let body = b.clone();
                    self.stage = PayStage::Paywall;
                    CliAction::ReadPaywall { body, network: self.network.clone() }
                },
                None => {
                    self.stage = PayStage::ReadBody;
                    CliAction::ReadStdin
                },
            },
            CliEvent::Piped(text) => match payment_body(None, text.as_str()) {
                Err(_) => {
                    self.stage = PayStage::Done;
                    CliAction::Finish { close: false, result: Err(no_body()) }
                },
                Ok(body) => {
                    self.stage = PayStage::Paywall;
                    CliAction::ReadPaywall { body, network: self.network.clone() }
                },
            },
            CliEvent::PaywallRead(Ok((pay_to, amount))) => {
                self.address = pay_to;
                self.amount = amount;
                self.stage = PayStage::Policy;
                CliAction::LoadPolicy
            },
            CliEvent::PolicyLoaded(r) => match spend_policy(r) {
                Err(m) => {
                    self.stage = PayStage::Done;
                    CliAction::Finish { close: false, result: Err(m) }
                },
                Ok(()) => {
                    self.stage = PayStage::DailySpent;
                    CliAction::ReadDailySpent
                },
            },
            CliEvent::DailySpent(Err(e)) => {
                self.stage = PayStage::Done;
                CliAction::Finish { close: false, result: Err(e) }
            },
            CliEvent::DailySpent(Ok(daily_spent)) => {
                self.stage = PayStage::Verdict;
                CliAction::CheckProposal {
                    address: self.address.clone(),
                    amount: self.amount,
                    context_id: copy_text(&self.context_id),
                    daily_spent,
                }
            },
            CliEvent::Verdict(Err(v)) | CliEvent::RateChecked(Err(v)) => {
                let e = entry(
                    AuditAction::X402Pay,
                    &self.address,
                    self.amount,
                    None,
                    &self.context_id,
                    None,
                    Some(v.clone()),
                );
                self.stage = PayStage::Refusing(v);
                CliAction::Log { entry: e, record_confirm: false }
            },
            CliEvent::Verdict(Ok(())) => {
                self.stage = PayStage::RateLimit;
                CliAction::CheckRateLimit
            },
            CliEvent::RateChecked(Ok(())) => {
                self.stage = PayStage::Open;
                CliAction::OpenWallet
            },
            CliEvent::Opened(Ok(())) => {
                self.stage = PayStage::Engine;
                CliAction::Propose {
                    address: self.address.clone(),
                    amount: self.amount,
                    memo: None,
                    is_max: false,
                    priority: false,
                }
            },
            CliEvent::Proposed(Ok((send_amount, fee))) => {
                self.stage = PayStage::Seed { send_amount, fee };
                CliAction::ReadSeed
            },
            CliEvent::SeedRead(Ok(())) => {
                let (send_amount, fee) = match &self.stage {
                    PayStage::Seed { send_amount, fee } => (*send_amount, *fee),
                    _ => (0, 0),
                };
                self.stage = PayStage::Broadcast { send_amount, fee };
                CliAction::ConfirmSend
            },
            CliEvent::Broadcasted(r) => {
                let (send_amount, fee) = match &self.stage {
                    PayStage::Broadcast { send_amount, fee } => (*send_amount, *fee),
                    _ => (0, 0),
                };
                match r {
                    Ok(txid) => {
                        let e = entry(
                            AuditAction::X402Pay,
                            &self.address,
                            send_amount,
                            Some(fee),
                            &self.context_id,
                            Some(txid.clone()),
                            None,
                        );
                        self.stage = PayStage::Recording { txid, send_amount, fee };
                        CliAction::Log { entry: e, record_confirm: true }
                    },
                    Err(err) => {
                        let e = entry(
                            AuditAction::X402Pay,
                            &self.address,
                            send_amount,
                            Some(fee),
                            &self.context_id,
                            None,
                            Some(err.clone()),
                        );
                        self.stage = PayStage::Refusing(err);
                        CliAction::Log { entry: e, record_confirm: false }
                    },
                }
            },
            CliEvent::Logged => match &self.stage {
                PayStage::Recording { txid, send_amount, fee } => {
                    let (txid, send_amount, fee) = (txid.clone(), *send_amount, *fee);
                    self.stage = PayStage::Deleting { txid, send_amount, fee };
                    CliAction::DeletePending
                },
                _ => {
                    let v = match &self.stage {
                        PayStage::Refusing(v) => v.clone(),
                        _ => String::new(),
                    };
                    self.stage = PayStage::Done;
                    CliAction::Finish { close: false, result: Err(v) }
                },
            },
            CliEvent::PendingDeleted => {
                let (txid, send_amount, fee) = match &self.stage {
                    PayStage::Deleting { txid, send_amount, fee } => (txid.clone(), *send_amount, *fee),
                    _ => (String::new(), 0, 0),
                };
                self.stage = PayStage::Signing { txid: txid.clone(), send_amount, fee };
                CliAction::SignPayment { txid }
            },
            CliEvent::PaymentSigned(sig) => {
                let (txid, send_amount, fee) = match &self.stage {
                    PayStage::Signing { txid, send_amount, fee } => (txid.clone(), *send_amount, *fee),
                    _ => (String::new(), 0, 0),
                };
                self.stage = PayStage::Done;
                CliAction::Finish {
                    close: true,
                    result: Ok(
                        CliOutput::Paid {
                            txid,
                            payment_signature: sig,
                            amount: send_amount,
                            fee,
                            address: self.address.clone(),
                        },
                    ),
                }
            },
            _ => CliAction::Finish { close: false, result: Err(String::new()) },
        }
    }
}

/// `x402 pay`: pays a paywall from its 402 body (`body`, or else the text piped in on stdin);
/// the first step is to make sure the proving parameters are in place.
pub fn cmd_x402_pay(cfg: &Config, body: Option<String>, context_id: Option<String>) -> (res: (
    X402Pay,
    CliAction,
))
    ensures
        res.0.stage() == PayStage::Params,
        res.0.network() == network_text(cfg.network),
        res.0.payment().0 == body,
        res.0.payment().1 == context_id,
        res.1 == CliAction::EnsureParams,
{
    (
        X402Pay {
            stage: PayStage::Params,
            network: network_of(cfg),
            body,
            context_id,
            address: String::new(),
            amount: 0,
        },
        CliAction::EnsureParams,
    )
}

// ---------------------------------------------------------------------------------------------
// consolidate
// ---------------------------------------------------------------------------------------------

/// Where a consolidation stands.
#[derive(Debug, Clone, PartialEq, Eq)]
pub enum ConsolidateStage {
    Params,
    Sync,
    Open,
    Addresses,
    Engine,
    Seed { send_amount: u64, fee: u64 },
    Broadcast { send_amount: u64, fee: u64 },
    Done,
}

/// The message of a consolidation in a wallet without an address.
pub open spec fn no_address_text() -> Seq<char> {
    "No address found — wallet may not be initialized"@
}

/// `consolidate`: sends everything spendable to the wallet's own first address, to reduce the
/// number of notes. The proving parameters are put in place and the wallet synced; the engine
/// proposes a `--max` send to that address, and only then is the seed read and the send signed
/// and broadcast. The wallet pays only itself, so no spending policy applies.
#[derive(Debug, Clone, PartialEq, Eq)]
pub struct Consolidate {
    stage: ConsolidateStage,
    own_address: String,
}

impl Consolidate {
    /// Where the consolidation stands.
    pub closed spec fn stage(&self) -> ConsolidateStage {
        self.stage
    }

    /// The wallet's own address the notes go to (once listed).
    pub closed spec fn own_address(&self) -> String {
        self.own_address
    }

    /// The event that the current stage waits for.
    pub open spec fn expects(&self, event: CliEvent) -> bool {
        match (self.stage(), event) {
            (ConsolidateStage::Params, CliEvent::ParamsReady(_)) => true,
            (ConsolidateStage::Sync, CliEvent::Synced(_)) => true,
            (ConsolidateStage::Open, CliEvent::Opened(_)) => true,
            (ConsolidateStage::Addresses, CliEvent::AddressesListed(_)) => true,
            (ConsolidateStage::Engine, CliEvent::Proposed(_)) => true,
            (ConsolidateStage::Seed { .. }, CliEvent::SeedRead(_)) => true,
            (ConsolidateStage::Broadcast { .. }, CliEvent::Broadcasted(_)) => true,
            _ => false,
        }
    }

    /// Takes the result of the work last asked for and says what to do next. The only send it
    /// proposes goes to the first address the wallet lists.
    pub fn step(&mut self, event: CliEvent) -> (action: CliAction)
        requires
            old(self).expects(event),
        ensures
            action matches CliAction::Propose { address, amount, memo, is_max, priority } ==> {
                &&& event matches CliEvent::AddressesListed(Ok(list))
                &&& list@.len() > 0
                &&& address == list@[0]
                &&& amount == 0
                &&& memo is None
                &&& is_max
                &&& !priority
            },
            match (old(self).stage(), event) {
                (ConsolidateStage::Params, CliEvent::ParamsReady(Err(e))) => {
                    &&& final(self).stage() == ConsolidateStage::Done
                    &&& action == fail(e)
                },
                (ConsolidateStage::Params, CliEvent::ParamsReady(Ok(_))) => {
                    &&& final(self).stage() == ConsolidateStage::Sync
                    &&& action == CliAction::ForceSync
                },
                (ConsolidateStage::Sync, CliEvent::Synced(Err(e))) => {
                    &&& final(self).stage() == ConsolidateStage::Done
                    &&& action == fail(e)
                },
                (ConsolidateStage::Sync, CliEvent::Synced(Ok(_))) => {
                    &&& final(self).stage() == ConsolidateStage::Open
                    &&& action == CliAction::OpenWallet
                },
                (ConsolidateStage::Open, CliEvent::Opened(Err(e))) => {
                    &&& final(self).stage() == ConsolidateStage::Done
                    &&& action == fail(e)
                },
                (ConsolidateStage::Open, CliEvent::Opened(Ok(_))) => {
                    &&& final(self).stage() == ConsolidateStage::Addresses
                    &&& action == CliAction::ListAddresses
                },
                (ConsolidateStage::Addresses, CliEvent::AddressesListed(Err(e))) => {
                    &&& final(self).stage() == ConsolidateStage::Done
                    &&& action == fail(e)
                },
                (ConsolidateStage::Addresses, CliEvent::AddressesListed(Ok(list))) => if list@.len()
                    == 0 {
                    &&& final(self).stage() == ConsolidateStage::Done
                    &&& action matches CliAction::Finish { close, result: Err(m) }
                    &&& !close
                    &&& m@ == no_address_text()
                } else {
                    &&& final(self).stage() == ConsolidateStage::Engine
                    &&& final(self).own_address() == list@[0]
                    &&& action == CliAction::Propose {
                        address: list@[0],
                        amount: 0,
                        memo: None,
                        is_max: true,
                        priority: false,
                    }
                },
                (ConsolidateStage::Engine, CliEvent::Proposed(Err(e))) => {
                    &&& final(self).stage() == ConsolidateStage::Done
                    &&& action == fail(e)
                },
                (ConsolidateStage::Engine, CliEvent::Proposed(Ok((send_amount, fee)))) => {
                    &&& final(self).stage() == ConsolidateStage::Seed { send_amount, fee }
                    &&& action == CliAction::ReadSeed
                },
                (ConsolidateStage::Seed { .. }, CliEvent::SeedRead(Err(e))) => {
                    &&& final(self).stage() == ConsolidateStage::Done
                    &&& action == fail(e)
                },
                (ConsolidateStage::Seed { send_amount, fee }, CliEvent::SeedRead(Ok(_))) => {
                    &&& final(self).stage() == ConsolidateStage::Broadcast { send_amount, fee }
                    &&& action == CliAction::ConfirmSend
                },
                (ConsolidateStage::Broadcast { .. }, CliEvent::Broadcasted(Err(e))) => {
                    &&& final(self).stage() == ConsolidateStage::Done
                    &&& action == fail(e)
                },
                (ConsolidateStage::Broadcast { send_amount, fee }, CliEvent::Broadcasted(Ok(txid))) => {
                    &&& final(self).stage() == ConsolidateStage::Done
                    &&& action == CliAction::Finish {
                        close: true,
                        result: Ok(CliOutput::Consolidated { txid, amount: send_amount, fee }),
                    }
                },
                _ => false,
            },
    {
        match event {
            CliEvent::ParamsReady(Err(e)) | CliEvent::Synced(Err(e)) | CliEvent::Opened(Err(e))
            | CliEvent::AddressesListed(Err(e)) | CliEvent::Proposed(Err(e)) | CliEvent::SeedRead(
                Err(e),
            ) | CliEvent::Broadcasted(Err(e)) => {
                self.stage = ConsolidateStage::Done;
                CliAction::Finish { close: false, result: Err(e) }
            },
            CliEvent::ParamsReady(Ok(())) => {
                self.stage = ConsolidateStage::Sync;
                CliAction::ForceSync
            },
            CliEvent::Synced(Ok(())) => {
                self.stage = ConsolidateStage::Open;
                CliAction::OpenWallet
            },
            CliEvent::Opened(Ok(())) => {
                self.stage = ConsolidateStage::Addresses;
                CliAction::ListAddresses
            },
            CliEvent::AddressesListed(Ok(list)) => {
                if list.len() == 0 {
                    self.stage = ConsolidateStage::Done;
                    CliAction::Finish {
                        close: false,
                        result: Err(
                            String::from_str("No address found — wallet may not be initialized"),
                        ),
                    }
                } else {
                    let own = list[0].clone();
                    self.own_address = own.clone();
                    self.stage = ConsolidateStage::Engine;
                    CliAction::Propose {
                        address: own,
                        amount: 0,
                        memo: None,
                        is_max: true,
                        priority: false,
                    }
                }
            },
            CliEvent::Proposed(Ok((send_amount, fee))) => {
                self.stage = ConsolidateStage::Seed { send_amount, fee };
                CliAction::ReadSeed
            },
            CliEvent::SeedRead(Ok(())) => {
                let (send_amount, fee) = match &self.stage {
                    ConsolidateStage::Seed { send_amount, fee } => (*send_amount, *fee),
                    _ => (0, 0),
                };
                self.stage = ConsolidateStage::Broadcast { send_amount, fee };
                CliAction::ConfirmSend
            },
            CliEvent::Broadcasted(Ok(txid)) => {
                let (send_amount, fee) = match &self.stage {
                    ConsolidateStage::Broadcast { send_amount, fee } => (*send_amount, *fee),
                    _ => (0, 0),
                };
                self.stage = ConsolidateStage::Done;
                CliAction::Finish {
                    close: true,
                    result: Ok(CliOutput::Consolidated { txid, amount: send_amount, fee }),
                }
            },
            _ => CliAction::Finish { close: false, result: Err(String::new()) },
        }
    }
}

/// `consolidate`: sends the wallet's notes to itself; the first step is to make sure the
/// proving parameters are in place.
pub fn cmd_consolidate(cfg: &Config) -> (res: (Consolidate, CliAction))
    ensures
        res.0.stage() == ConsolidateStage::Params,
        res.1 == CliAction::EnsureParams,
{
    (Consolidate { stage: ConsolidateStage::Params, own_address: String::new() }, CliAction::EnsureParams)
}

} // verus!
