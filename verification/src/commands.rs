//! The decisions inside the command-line and server commands that sit between their reads and
//! their writes: how a typed line ends, when a passphrase or a flag refuses a step, where a
//! paywall body comes from, when the sync loop stops, and what the server's arguments ask for.
use vstd::prelude::*;

use crate::config::Config;
use crate::text::{chars_of, same_text, trim, trimmed};

verus! {

/// Why a command stopped before it did anything.
#[derive(Debug, Clone, PartialEq, Eq)]
pub enum CommandError {
    /// The operator typed two different passphrases when creating the key.
    PassphrasesDiffer,
    /// The operator gave no passphrase when asked to sign an approval.
    ApprovalAborted,
    /// No paywall body was given and none was piped in.
    NoPaymentBody,
    /// Deleting the wallet needs `--confirm`.
    DeleteNotConfirmed,
    /// The server was started with arguments it does not take.
    UnsupportedArguments,
}

/// The text shown for a command error.
pub open spec fn command_error_text(e: CommandError) -> Seq<char> {
    match e {
        CommandError::PassphrasesDiffer => "the two passphrases differ; nothing was created"@,
        CommandError::ApprovalAborted => "aborted; nothing was approved"@,
        CommandError::NoPaymentBody =>
            "No 402 body provided. Pass --body '<JSON>' or pipe via stdin."@,
        CommandError::DeleteNotConfirmed =>
            "Pass --confirm to delete wallet data. This action is irreversible."@,
        CommandError::UnsupportedArguments => "Unsupported arguments. Use --help for usage."@,
    }
}

impl CommandError {
    /// The message shown for this error.
    pub fn describe(&self) -> (text: String)
        ensures
            text@ == command_error_text(*self),
    {
        match self {
            CommandError::PassphrasesDiffer => String::from_str(
                "the two passphrases differ; nothing was created",
            ),
            CommandError::ApprovalAborted => String::from_str("aborted; nothing was approved"),
            CommandError::NoPaymentBody => String::from_str(
                "No 402 body provided. Pass --body '<JSON>' or pipe via stdin.",
            ),
            CommandError::DeleteNotConfirmed => String::from_str(
                "Pass --confirm to delete wallet data. This action is irreversible.",
            ),
            CommandError::UnsupportedArguments => String::from_str(
                "Unsupported arguments. Use --help for usage.",
            ),
        }
    }
}

/// `s` without the carriage returns and line feeds at its end.
pub open spec fn strip_line_end(s: Seq<char>) -> Seq<char>
    decreases s.len(),
{
    if s.len() > 0 && (s.last() == '\r' || s.last() == '\n') {
        strip_line_end(s.drop_last())
    } else {
        s
    }
}

/// A line as typed at the terminal, without its line ending (every `\r` and `\n` at its end).
pub fn typed_line(line: &str) -> (res: &str)
    ensures
        res@ == strip_line_end(line@),
{
    let c = chars_of(line);
    let mut j: usize = c.len();
    assert(line@.subrange(0, j as int) =~= line@);
    loop
        invariant
            c@ == line@,
            j <= c@.len(),
            strip_line_end(line@) == strip_line_end(line@.subrange(0, j as int)),
        ensures
            j <= c@.len(),
            strip_line_end(line@) == line@.subrange(0, j as int),
        decreases j,
    {
        if j == 0 {
            break;
        }
        if c[j - 1] != '\r' && c[j - 1] != '\n' {
            break;
        }
        assert(line@.subrange(0, j as int).drop_last() =~= line@.subrange(0, j - 1));
        j = j - 1;
    }
    line.substring_char(0, j)
}

/// Creating the operator key needs the same passphrase typed twice.
pub fn confirm_new_passphrase(first: &str, again: &str) -> (res: Result<(), CommandError>)
    ensures
        first@ == again@ ==> res is Ok,
        first@ != again@ ==> res == Err::<(), CommandError>(CommandError::PassphrasesDiffer),
{
    if same_text(first, again) {
        Ok(())
    } else {
        Err(CommandError::PassphrasesDiffer)
    }
}

/// Signing an approval needs a passphrase; an empty one aborts.
pub fn approval_passphrase(passphrase: &str) -> (res: Result<(), CommandError>)
    ensures
        passphrase@.len() == 0 ==> res == Err::<(), CommandError>(CommandError::ApprovalAborted),
        passphrase@.len() > 0 ==> res is Ok,
{
    if passphrase.is_empty() {
        Err(CommandError::ApprovalAborted)
    } else {
        Ok(())
    }
}

/// The paywall body: the one given on the command line as it is, or else the trimmed text
/// piped in on stdin, which must not be empty.
pub fn payment_body(body: Option<String>, piped: &str) -> (res: Result<String, CommandError>)
    ensures
        body is Some ==> res == Ok::<String, CommandError>(body.unwrap()),
        body is None && trimmed(piped@).len() == 0 ==> res == Err::<String, CommandError>(
            CommandError::NoPaymentBody,
        ),
        body is None && trimmed(piped@).len() > 0 ==> (res matches Ok(b) && b@ == trimmed(
            piped@,
        )),
{
    match body {
        Some(b) => Ok(b),
        None => {
            let t = trim(piped);
            if t.is_empty() {
                Err(CommandError::NoPaymentBody)
            } else {
                Ok(String::from_str(t))
            }
        },
    }
}

/// Deleting the wallet's data needs `--confirm`.
pub fn delete_confirmation(confirm: bool) -> (res: Result<(), CommandError>)
    ensures
        confirm ==> res is Ok,
        !confirm ==> res == Err::<(), CommandError>(CommandError::DeleteNotConfirmed),
{
    if confirm {
        Ok(())
    } else {
        Err(CommandError::DeleteNotConfirmed)
    }
}

/// What the foreground sync loop does after a progress report.
#[derive(Debug, Clone, Copy, PartialEq, Eq)]
pub enum SyncStep {
    /// Keep waiting.
    Continue,
    /// The operator pressed Ctrl+C: stop the sync.
    StopByUser,
    /// The wallet has caught up with the chain.
    FullySynced,
    /// The sync ended without catching up.
    Finished,
}

/// Decides the sync loop's next step from a progress report: a cancel wins; then a wallet that
/// is not syncing and has a synced height at or above the latest one is fully synced; then a
/// sync that is neither syncing nor running has finished.
pub fn sync_step(cancelled: bool, is_syncing: bool, synced_height: u32, latest_height: u32, running: bool) -> (step: SyncStep)
    ensures
        step == (if cancelled {
            SyncStep::StopByUser
        } else if !is_syncing && synced_height > 0 && synced_height >= latest_height {
            SyncStep::FullySynced
        } else if !is_syncing && !running {
            SyncStep::Finished
        } else {
            SyncStep::Continue
        }),
{
    if cancelled {
        SyncStep::StopByUser
    } else if !is_syncing && synced_height > 0 && synced_height >= latest_height {
        SyncStep::FullySynced
    } else if !is_syncing && !running {
        SyncStep::Finished
    } else {
        SyncStep::Continue
    }
}

/// What the MCP server was asked to do by its arguments.
#[derive(Debug, Clone, Copy, PartialEq, Eq)]
pub enum ServerMode {
    /// No arguments: serve MCP over stdio.
    Serve,
    /// `--version` or `-V`.
    Version,
    /// `--help` or `-h`.
    Help,
}

/// The server takes no arguments, or exactly one of `--version`, `-V`, `--help`, `-h`; with
/// these it prints and exits without opening a wallet.
pub fn server_mode(args: &Vec<String>) -> (res: Result<ServerMode, CommandError>)
    ensures
        args@.len() == 0 ==> res == Ok::<ServerMode, CommandError>(ServerMode::Serve),
        args@.len() == 1 && (args@[0]@ == "--version"@ || args@[0]@ == "-V"@) ==> res == Ok::<
            ServerMode,
            CommandError,
        >(ServerMode::Version),
        args@.len() == 1 && (args@[0]@ == "--help"@ || args@[0]@ == "-h"@) ==> res == Ok::<
            ServerMode,
            CommandError,
        >(ServerMode::Help),
        args@.len() == 1 && !(args@[0]@ == "--version"@ || args@[0]@ == "-V"@ || args@[0]@
            == "--help"@ || args@[0]@ == "-h"@) ==> res == Err::<ServerMode, CommandError>(
            CommandError::UnsupportedArguments,
        ),
        args@.len() > 1 ==> res == Err::<ServerMode, CommandError>(
            CommandError::UnsupportedArguments,
        ),
{
    if args.len() == 0 {
        return Ok(ServerMode::Serve);
    }
    if args.len() > 1 {
        return Err(CommandError::UnsupportedArguments);
    }
    let a = args[0].as_str();
    proof {
        reveal_strlit("--version");
        reveal_strlit("-V");
        reveal_strlit("--help");
        reveal_strlit("-h");
        assert("--help"@[2] != "--version"@[2]);
        assert("-h"@[1] != "-V"@[1]);
    }
    if same_text(a, "--version") || same_text(a, "-V") {
        Ok(ServerMode::Version)
    } else if same_text(a, "--help") || same_text(a, "-h") {
        Ok(ServerMode::Help)
    } else {
        Err(CommandError::UnsupportedArguments)
    }
}

/// The work the foreground sync asks for next.
#[derive(Debug, Clone, PartialEq, Eq)]
pub enum SyncAction {
    /// Open the wallet database.
    OpenWallet,
    /// Start the background sync, then install the Ctrl+C handler (a failure to install it is
    /// ignored) and, for a human, say how to stop.
    StartSync,
    /// Wait two seconds, then read the sync progress (for a human, show it), whether Ctrl+C
    /// was pressed and whether the sync is still running.
    WaitForProgress,
    /// Stop the background sync.
    StopSync,
    /// Read the progress once more, print it (as JSON unless for a human) and close the wallet.
    Finish(SyncStep),
    /// Fail with the message (the wallet is not closed).
    Fail(String),
}

/// What the work asked for gave.
#[derive(Debug, PartialEq, Eq)]
pub enum SyncEvent {
    Opened(Result<(), String>),
    Started(Result<(), String>),
    Progress { cancelled: bool, is_syncing: bool, synced_height: u32, latest_height: u32, running: bool },
    Stopped,
}

/// Where the foreground sync stands.
#[derive(Debug, Clone, Copy, PartialEq, Eq)]
pub enum SyncStage {
    Open,
    Start,
    Watching,
    Stopping,
    Done,
}

/// `sync start`: opens the wallet, starts the sync and watches it every two seconds until the
/// operator presses Ctrl+C (the sync is then stopped), the wallet has caught up, or the sync
/// ends on its own.
#[derive(Debug, Clone, PartialEq, Eq)]
pub struct SyncWatch {
    stage: SyncStage,
}

impl SyncWatch {
    /// Where the sync stands.
    pub closed spec fn stage(&self) -> SyncStage {
        self.stage
    }

    /// The event that the current stage waits for.
    pub open spec fn expects(&self, event: SyncEvent) -> bool {
        match (self.stage(), event) {
            (SyncStage::Open, SyncEvent::Opened(_)) => true,
            (SyncStage::Start, SyncEvent::Started(_)) => true,
            (SyncStage::Watching, SyncEvent::Progress { .. }) => true,
            (SyncStage::Stopping, SyncEvent::Stopped) => true,
            _ => false,
        }
    }

    /// Takes the result of the work last asked for and says what to do next; after each
    /// progress report, [`sync_step`] decides.
    pub fn step(&mut self, event: SyncEvent) -> (action: SyncAction)
        requires
            old(self).expects(event),
        ensures
            match (old(self).stage(), event) {
                (SyncStage::Open, SyncEvent::Opened(Err(e))) => {
                    &&& final(self).stage() == SyncStage::Done
                    &&& action == SyncAction::Fail(e)
                },
                (SyncStage::Open, SyncEvent::Opened(Ok(_))) => {
                    &&& final(self).stage() == SyncStage::Start
                    &&& action == SyncAction::StartSync
                },
                (SyncStage::Start, SyncEvent::Started(Err(e))) => {
                    &&& final(self).stage() == SyncStage::Done
                    &&& action == SyncAction::Fail(e)
                },
                (SyncStage::Start, SyncEvent::Started(Ok(_))) => {
                    &&& final(self).stage() == SyncStage::Watching
                    &&& action == SyncAction::WaitForProgress
                },
                (
                    SyncStage::Watching,
                    SyncEvent::Progress { cancelled, is_syncing, synced_height, latest_height, running },
                ) => {
                    let s = if cancelled {
                        SyncStep::StopByUser
                    } else if !is_syncing && synced_height > 0 && synced_height >= latest_height {
                        SyncStep::FullySynced
                    } else if !is_syncing && !running {
                        SyncStep::Finished
                    } else {
                        SyncStep::Continue
                    };
                    match s {
                        SyncStep::Continue => {
                            &&& final(self).stage() == SyncStage::Watching
                            &&& action == SyncAction::WaitForProgress
                        },
                        SyncStep::StopByUser => {
                            &&& final(self).stage() == SyncStage::Stopping
                            &&& action == SyncAction::StopSync
                        },
                        _ => {
                            &&& final(self).stage() == SyncStage::Done
                            &&& action == SyncAction::Finish(s)
                        },
                    }
                },
                (SyncStage::Stopping, SyncEvent::Stopped) => {
                    &&& final(self).stage() == SyncStage::Done
                    &&& action == SyncAction::Finish(SyncStep::StopByUser)
                },
                _ => false,
            },
    {
        match event {
            SyncEvent::Opened(Err(e)) | SyncEvent::Started(Err(e)) => {
                self.stage = SyncStage::Done;
                SyncAction::Fail(e)
            },
            SyncEvent::Opened(Ok(())) => {
                self.stage = SyncStage::Start;
                SyncAction::StartSync
            },
            SyncEvent::Started(Ok(())) => {
                self.stage = SyncStage::Watching;
                SyncAction::WaitForProgress
            },
            SyncEvent::Progress { cancelled, is_syncing, synced_height, latest_height, running } => {
                match sync_step(cancelled, is_syncing, synced_height, latest_height, running) {
                    SyncStep::Continue => SyncAction::WaitForProgress,
                    SyncStep::StopByUser => {
                        self.stage = SyncStage::Stopping;
                        SyncAction::StopSync
                    },
                    s => {
                        self.stage = SyncStage::Done;
                        SyncAction::Finish(s)
                    },
                }
            },
            SyncEvent::Stopped => {
                self.stage = SyncStage::Done;
                SyncAction::Finish(SyncStep::StopByUser)
            },
        }
    }
}

/// `sync start`; the first step is to open the wallet.
pub fn cmd_sync_start(cfg: &Config) -> (res: (SyncWatch, SyncAction))
    ensures
        res.0.stage() == SyncStage::Open,
        res.1 == SyncAction::OpenWallet,
{
    (SyncWatch { stage: SyncStage::Open }, SyncAction::OpenWallet)
}

} // verus!
