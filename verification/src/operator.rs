//! The operator's side of the approval channel: `operator init` creates the operator key and
//! `approve` signs one recorded proposal. Both read the operator passphrase from the terminal,
//! never from an argument or the environment. Each is a small machine that asks for one piece
//! of outside work at a time and decides from the result what comes next.
use vstd::prelude::*;

use crate::approval::{
    approve, expiry, is_safe_id, is_signed_approval, load_proposal, operator_error_text,
    operator_init, ApprovalRecord, FileRead, OperatorError, OperatorKeyPair, Proposal,
};
use crate::commands::{approval_passphrase, command_error_text, confirm_new_passphrase, CommandError};
use crate::config::Config;
use crate::primitives::{ed25519_point_decodes, ed25519_public, hex_lower};

verus! {

/// What an operator command prints when it succeeds.
#[derive(Debug, Clone, PartialEq, Eq)]
pub enum OperatorOutput {
    /// The operator key was created.
    KeyCreated,
    /// The proposal was approved until `expires_at`.
    Approved { proposal_id: String, expires_at: u64 },
}

/// The work an operator command asks for next.
#[derive(Debug, PartialEq, Eq)]
pub enum OperatorAction {
    /// Create the data directory if it is missing.
    EnsureDataDir,
    /// Read a passphrase line from the terminal, showing `prompt` first when stdin is one.
    ReadPassphrase { prompt: String },
    /// Check which halves of the operator key are on disk.
    CheckKeyFiles,
    /// Seal the key's secret under the passphrase into `operator.key` (created new, readable by
    /// the owner only) and write its public half to `operator.pub`.
    SealAndStore { key: OperatorKeyPair, passphrase: String },
    /// Read the recorded proposal `proposals/<id>.json`.
    LoadProposal { id: String },
    /// Show the operator the proposal and how long the approval will be valid, then read the
    /// passphrase line, showing `prompt` first when stdin is a terminal.
    ConfirmWithOperator { proposal: Proposal, ttl_minutes: u64, prompt: String },
    /// Read the clock, in whole seconds since the Unix epoch.
    ReadClock,
    /// If the operator key is on disk, read `operator.key` and open it with the passphrase.
    Unseal { passphrase: String },
    /// Write the signed approval to `approvals/<id>.json`.
    WriteApproval(ApprovalRecord),
    /// The command is over: print the output or fail with the message.
    Finish(Result<OperatorOutput, String>),
}

/// What the work asked for gave.
#[derive(Debug, PartialEq, Eq)]
pub enum OperatorEvent {
    DataDirReady(Result<(), String>),
    /// The line typed, without its line ending.
    PassphraseRead(Result<String, String>),
    KeyFiles { public: bool, secret: bool },
    Stored(Result<(), String>),
    ProposalRead(FileRead<Proposal>),
    Clock(u64),
    /// Whether the operator key is on disk and, if so, what opening it gave.
    Unsealed { key_present: bool, unsealed: Result<Vec<u8>, OperatorError> },
    Written(Result<(), String>),
}

/// Whether `action` ends the command with the message `message`.
pub open spec fn ends_with_error(action: OperatorAction, message: Seq<char>) -> bool {
    action matches OperatorAction::Finish(Err(m)) && m@ == message
}

/// The prompt for a new operator passphrase.
pub open spec fn choose_prompt() -> Seq<char> {
    "Choose the operator passphrase (typed here, never stored, never put in an env var):"@
}

/// The prompt for the passphrase a second time.
pub open spec fn again_prompt() -> Seq<char> {
    "Type it again:"@
}

/// The prompt for the passphrase that signs an approval.
pub open spec fn sign_prompt() -> Seq<char> {
    "Operator passphrase to sign it (Enter with nothing to abort):"@
}

// ---------------------------------------------------------------------------------------------
// operator init
// ---------------------------------------------------------------------------------------------

/// Where `operator init` stands.
#[derive(Debug, Clone, PartialEq, Eq)]
pub enum InitKeyStage {
    DataDir,
    First,
    Again(String),
    KeyFiles(String),
    Storing,
    Done,
}

/// `operator init`: the data directory is created; the passphrase is typed twice and must
/// match; an existing key (either half) is never replaced and an empty passphrase is refused;
/// then a fresh key is sealed and stored.
#[derive(Clone, PartialEq, Eq)]
pub struct OperatorInit {
    stage: InitKeyStage,
    data_dir: String,
}

impl OperatorInit {
    /// Where the command stands.
    pub closed spec fn stage(&self) -> InitKeyStage {
        self.stage
    }

    /// The data directory.
    pub closed spec fn data_dir(&self) -> String {
        self.data_dir
    }

    /// The event that the current stage waits for.
    pub open spec fn expects(&self, event: OperatorEvent) -> bool {
        match (self.stage(), event) {
            (InitKeyStage::DataDir, OperatorEvent::DataDirReady(_)) => true,
            (InitKeyStage::First, OperatorEvent::PassphraseRead(_)) => true,
            (InitKeyStage::Again(_), OperatorEvent::PassphraseRead(_)) => true,
            (InitKeyStage::KeyFiles(_), OperatorEvent::KeyFiles { .. }) => true,
            (InitKeyStage::Storing, OperatorEvent::Stored(_)) => true,
            _ => false,
        }
    }

    /// Takes the result of the work last asked for and says what to do next. A key is stored
    /// only when both passphrases matched, were not empty, and no half of a key was on disk.
    pub fn step(&mut self, event: OperatorEvent) -> (action: OperatorAction)
        requires
            old(self).expects(event),
        ensures
            final(self).data_dir() == old(self).data_dir(),
            match (old(self).stage(), event) {
                (InitKeyStage::DataDir, OperatorEvent::DataDirReady(Err(e))) => {
                    &&& final(self).stage() == InitKeyStage::Done
                    &&& action == OperatorAction::Finish(Err(e))
                },
                (InitKeyStage::DataDir, OperatorEvent::DataDirReady(Ok(_))) => {
                    &&& final(self).stage() == InitKeyStage::First
                    &&& action matches OperatorAction::ReadPassphrase { prompt }
                    &&& prompt@ == choose_prompt()
                },
                (InitKeyStage::First, OperatorEvent::PassphraseRead(Err(e))) => {
                    &&& final(self).stage() == InitKeyStage::Done
                    &&& action == OperatorAction::Finish(Err(e))
                },
                (InitKeyStage::First, OperatorEvent::PassphraseRead(Ok(first))) => {
                    &&& final(self).stage() == InitKeyStage::Again(first)
                    &&& action matches OperatorAction::ReadPassphrase { prompt }
                    &&& prompt@ == again_prompt()
                },
                (InitKeyStage::Again(_), OperatorEvent::PassphraseRead(Err(e))) => {
                    &&& final(self).stage() == InitKeyStage::Done
                    &&& action == OperatorAction::Finish(Err(e))
                },
                (InitKeyStage::Again(first), OperatorEvent::PassphraseRead(Ok(again))) => if first@
                    != again@ {
                    &&& final(self).stage() == InitKeyStage::Done
                    &&& ends_with_error(action, command_error_text(CommandError::PassphrasesDiffer))
                } else {
                    &&& final(self).stage() == InitKeyStage::KeyFiles(first)
                    &&& action == OperatorAction::CheckKeyFiles
                },
                (InitKeyStage::KeyFiles(pass), OperatorEvent::KeyFiles { public, secret }) => if public
                    || secret {
                    &&& final(self).stage() == InitKeyStage::Done
                    &&& ends_with_error(
                        action,
                        operator_error_text(OperatorError::KeyExists(old(self).data_dir())),
                    )
                } else if pass@.len() == 0 {
                    &&& final(self).stage() == InitKeyStage::Done
                    &&& ends_with_error(action, operator_error_text(OperatorError::EmptyPassphrase))
                } else {
                    &&& final(self).stage() == InitKeyStage::Storing
                    &&& action matches OperatorAction::SealAndStore { key, passphrase }
                    &&& passphrase == pass
                    &&& key.public_hex@ == hex_lower(ed25519_public(key.secret@))
                    &&& ed25519_point_decodes(ed25519_public(key.secret@))
                },
                (InitKeyStage::Storing, OperatorEvent::Stored(Err(e))) => {
                    &&& final(self).stage() == InitKeyStage::Done
                    &&& action == OperatorAction::Finish(Err(e))
                },
                (InitKeyStage::Storing, OperatorEvent::Stored(Ok(_))) => {
                    &&& final(self).stage() == InitKeyStage::Done
                    &&& action == OperatorAction::Finish(Ok(OperatorOutput::KeyCreated))
                },
                _ => false,
            },
    {
        let mut stage = InitKeyStage::Done;
        std::mem::swap(&mut stage, &mut self.stage);
        match (stage, event) {
            (_, OperatorEvent::DataDirReady(Err(e))) | (_, OperatorEvent::PassphraseRead(Err(e)))
            | (_, OperatorEvent::Stored(Err(e))) => OperatorAction::Finish(Err(e)),
            (_, OperatorEvent::DataDirReady(Ok(()))) => {
                self.stage = InitKeyStage::First;
                OperatorAction::ReadPassphrase {
                    prompt: String::from_str(
                        "Choose the operator passphrase (typed here, never stored, never put in an env var):",
                    ),
                }
            },
            (InitKeyStage::First, OperatorEvent::PassphraseRead(Ok(first))) => {
                self.stage = InitKeyStage::Again(first);
                OperatorAction::ReadPassphrase { prompt: String::from_str("Type it again:") }
            },
            (InitKeyStage::Again(first), OperatorEvent::PassphraseRead(Ok(again))) => {
                match confirm_new_passphrase(first.as_str(), again.as_str()) {
                    Err(e) => OperatorAction::Finish(Err(e.describe())),
                    Ok(()) => {
                        self.stage = InitKeyStage::KeyFiles(first);
                        OperatorAction::CheckKeyFiles
                    },
                }
            },
            (InitKeyStage::KeyFiles(pass), OperatorEvent::KeyFiles { public, secret }) => {
                match operator_init(self.data_dir.as_str(), public || secret, pass.as_str()) {
                    Err(e) => OperatorAction::Finish(Err(e.describe())),
                    Ok(key) => {
                        self.stage = InitKeyStage::Storing;
                        OperatorAction::SealAndStore { key, passphrase: pass }
                    },
                }
            },
            (_, OperatorEvent::Stored(Ok(()))) => OperatorAction::Finish(Ok(OperatorOutput::KeyCreated)),
            _ => OperatorAction::Finish(Err(String::new())),
        }
    }
}

/// `operator init` for the configured data directory; the first step is to create it.
pub fn cmd_operator_init(cfg: &Config) -> (res: (OperatorInit, OperatorAction))
    ensures
        res.0.stage() == InitKeyStage::DataDir,
        res.0.data_dir() == cfg.data_dir,
        res.1 == OperatorAction::EnsureDataDir,
{
    (OperatorInit { stage: InitKeyStage::DataDir, data_dir: cfg.data_dir.clone() }, OperatorAction::EnsureDataDir)
}

// ---------------------------------------------------------------------------------------------
// approve
// ---------------------------------------------------------------------------------------------

/// Where `approve` stands.
#[derive(Debug, Clone, PartialEq, Eq)]
pub enum ApproveStage {
    Proposal,
    Passphrase(Proposal),
    Clock(Proposal, String),
    Unsealing(Proposal, u64),
    Writing(Proposal, u64),
    Done,
}

/// `approve <proposal_id>`: the recorded proposal is loaded and shown to the operator with how
/// long the approval will be valid; an empty passphrase aborts; otherwise the operator key is
/// opened with the passphrase and signs the proposal as shown, valid for `ttl_minutes` from
/// the clock's reading, and the approval is written.
#[derive(Clone, PartialEq, Eq)]
pub struct Approve {
    stage: ApproveStage,
    proposal_id: String,
    ttl_minutes: u64,
}

impl Approve {
    /// Where the command stands.
    pub closed spec fn stage(&self) -> ApproveStage {
        self.stage
    }

    /// The proposal id asked for and the approval's validity in minutes.
    pub closed spec fn request(&self) -> (Seq<char>, u64) {
        (self.proposal_id@, self.ttl_minutes)
    }

    /// The event that the current stage waits for. The printed expiry, the clock's reading
    /// plus the validity, must fit in a `u64`.
    pub open spec fn expects(&self, event: OperatorEvent) -> bool {
        match (self.stage(), event) {
            (ApproveStage::Proposal, OperatorEvent::ProposalRead(_)) => true,
            (ApproveStage::Passphrase(_), OperatorEvent::PassphraseRead(_)) => true,
            (ApproveStage::Clock(_, _), OperatorEvent::Clock(_)) => true,
            (ApproveStage::Unsealing(_, _), OperatorEvent::Unsealed { .. }) => true,
            (ApproveStage::Writing(_, now), OperatorEvent::Written(_)) => now + self.request().1
                * 60 <= u64::MAX,
            _ => false,
        }
    }

    /// Takes the result of the work last asked for and says what to do next. What is signed is
    /// exactly the proposal that was shown to the operator.
    pub fn step(&mut self, event: OperatorEvent) -> (action: OperatorAction)
        requires
            old(self).expects(event),
            old(self).request().1 * 60 <= u64::MAX,
        ensures
            final(self).request() == old(self).request(),
            match (old(self).stage(), event) {
                (ApproveStage::Proposal, OperatorEvent::ProposalRead(read)) => match load_proposal_outcome(
                    old(self).request().0,
                    read,
                ) {
                    Ok(p) => {
                        &&& final(self).stage() == ApproveStage::Passphrase(p)
                        &&& action matches OperatorAction::ConfirmWithOperator {
                            proposal,
                            ttl_minutes,
                            prompt,
                        }
                        &&& proposal == p
                        &&& ttl_minutes == old(self).request().1
                        &&& prompt@ == sign_prompt()
                    },
                    Err(m) => {
                        &&& final(self).stage() == ApproveStage::Done
                        &&& ends_with_error(action, m)
                    },
                },
                (ApproveStage::Passphrase(_), OperatorEvent::PassphraseRead(Err(e))) => {
                    &&& final(self).stage() == ApproveStage::Done
                    &&& action == OperatorAction::Finish(Err(e))
                },
                (ApproveStage::Passphrase(p), OperatorEvent::PassphraseRead(Ok(pass))) => if pass@.len()
                    == 0 {
                    &&& final(self).stage() == ApproveStage::Done
                    &&& ends_with_error(action, command_error_text(CommandError::ApprovalAborted))
                } else {
                    &&& final(self).stage() == ApproveStage::Clock(p, pass)
                    &&& action == OperatorAction::ReadClock
                },
                (ApproveStage::Clock(p, pass), OperatorEvent::Clock(now)) => {
                    &&& final(self).stage() == ApproveStage::Unsealing(p, now)
                    &&& action == OperatorAction::Unseal { passphrase: pass }
                },
                (ApproveStage::Unsealing(p, now), OperatorEvent::Unsealed { key_present, unsealed }) => {
                    let ttl = (old(self).request().1 * 60) as u64;
                    if !is_safe_id(p.id@) {
                        &&& final(self).stage() == ApproveStage::Done
                        &&& ends_with_error(action, operator_error_text(OperatorError::InvalidProposalId))
                    } else if !key_present {
                        &&& final(self).stage() == ApproveStage::Done
                        &&& ends_with_error(action, operator_error_text(OperatorError::NoOperatorKey))
                    } else {
                        match unsealed {
                            Err(e) => {
                                &&& final(self).stage() == ApproveStage::Done
                                &&& ends_with_error(action, operator_error_text(e))
                            },
                            Ok(secret) => if secret@.len() != 32 {
                                &&& final(self).stage() == ApproveStage::Done
                                &&& ends_with_error(action, operator_error_text(OperatorError::CorruptKey))
                            } else {
                                &&& final(self).stage() == ApproveStage::Writing(p, now)
                                &&& action matches OperatorAction::WriteApproval(r)
                                &&& is_signed_approval(r, secret@, p, expiry(now, ttl))
                            },
                        }
                    }
                },
                (ApproveStage::Writing(_, _), OperatorEvent::Written(Err(e))) => {
                    &&& final(self).stage() == ApproveStage::Done
                    &&& action == OperatorAction::Finish(Err(e))
                },
                (ApproveStage::Writing(p, now), OperatorEvent::Written(Ok(_))) => {
                    &&& final(self).stage() == ApproveStage::Done
                    &&& action == OperatorAction::Finish(
                        Ok(
                            OperatorOutput::Approved {
                                proposal_id: p.id,
                                expires_at: (now + old(self).request().1 * 60) as u64,
                            },
                        ),
                    )
                },
                _ => false,
            },
    {
        let mut stage = ApproveStage::Done;
        std::mem::swap(&mut stage, &mut self.stage);
        match (stage, event) {
            (_, OperatorEvent::ProposalRead(read)) => {
                match load_proposal(self.proposal_id.as_str(), read) {
                    Err(e) => OperatorAction::Finish(Err(e.describe())),
                    Ok(p) => {
                        let shown = copy_proposal(&p);
                        self.stage = ApproveStage::Passphrase(p);
                        OperatorAction::ConfirmWithOperator {
                            proposal: shown,
                            ttl_minutes: self.ttl_minutes,
                            prompt: String::from_str(
                                "Operator passphrase to sign it (Enter with nothing to abort):",
                            ),
                        }
                    },
                }
            },
            (_, OperatorEvent::PassphraseRead(Err(e))) | (_, OperatorEvent::Written(Err(e))) => {
                OperatorAction::Finish(Err(e))
            },
            (ApproveStage::Passphrase(p), OperatorEvent::PassphraseRead(Ok(pass))) => {
                match approval_passphrase(pass.as_str()) {
                    Err(e) => OperatorAction::Finish(Err(e.describe())),
                    Ok(()) => {
                        self.stage = ApproveStage::Clock(p, pass);
                        OperatorAction::ReadClock
                    },
                }
            },
            (ApproveStage::Clock(p, pass), OperatorEvent::Clock(now)) => {
                self.stage = ApproveStage::Unsealing(p, now);
                OperatorAction::Unseal { passphrase: pass }
            },
            (ApproveStage::Unsealing(p, now), OperatorEvent::Unsealed { key_present, unsealed }) => {
                match approve(key_present, unsealed, &p, self.ttl_minutes * 60, now) {
                    Err(e) => OperatorAction::Finish(Err(e.describe())),
                    Ok(r) => {
                        self.stage = ApproveStage::Writing(p, now);
                        OperatorAction::WriteApproval(r)
                    },
                }
            },
            (ApproveStage::Writing(p, now), OperatorEvent::Written(Ok(()))) => {
                OperatorAction::Finish(
                    Ok(
                        OperatorOutput::Approved {
                            proposal_id: p.id,
                            expires_at: now + self.ttl_minutes * 60,
                        },
                    ),
                )
            },
            _ => OperatorAction::Finish(Err(String::new())),
        }
    }
}

/// What loading the recorded proposal `id` from what reading its file gave ends in: the
/// proposal, or the message of the error.
pub open spec fn load_proposal_outcome(id: Seq<char>, read: FileRead<Proposal>) -> Result<
    Proposal,
    Seq<char>,
> {
    if !is_safe_id(id) {
        Err(operator_error_text(OperatorError::InvalidProposalId))
    } else {
        match read {
            FileRead::Read(p) => Ok(p),
            FileRead::Malformed(e) => Err(operator_error_text(OperatorError::Storage(e))),
            FileRead::Failed(e) => Err("no recorded proposal "@ + id + ": "@ + e@),
            FileRead::Absent => Err("no recorded proposal "@ + id + ": "@ + "not found"@),
        }
    }
}

fn copy_proposal(p: &Proposal) -> (r: Proposal)
    ensures
        r == *p,
{
    Proposal { id: p.id.clone(), address: p.address.clone(), amount: p.amount, fee: p.fee }
}

/// `approve <proposal_id>` with an approval valid for `ttl_minutes`; the first step is to load
/// the recorded proposal.
pub fn cmd_approve(cfg: &Config, proposal_id: String, ttl_minutes: u64) -> (res: (
    Approve,
    OperatorAction,
))
    requires
        ttl_minutes * 60 <= u64::MAX,
    ensures
        res.0.stage() == ApproveStage::Proposal,
        res.0.request() == (proposal_id@, ttl_minutes),
        res.1 == (OperatorAction::LoadProposal { id: proposal_id }),
{
    let id = proposal_id.clone();
    (Approve { stage: ApproveStage::Proposal, proposal_id, ttl_minutes }, OperatorAction::LoadProposal { id })
}

} // verus!
