//! The wallet-side rules that do not need the network: the default spending policy, the vault
//! passphrase rule, what counts as a mnemonic seed, and what a restore stages before it syncs.
use vstd::prelude::*;

use crate::config::Config;
use crate::text::{
    contains, count_words, decimal, join, join_path, push_decimal, same_text, seq_contains,
    seq_starts_with, starts_with, word_count,
};

verus! {

/// The operator's spending policy. Amounts are in zatoshi.
#[derive(Debug, Clone, PartialEq, Eq)]
pub struct SpendingPolicy {
    pub max_per_tx: u64,
    pub daily_limit: u64,
    pub approval_threshold: u64,
    pub require_context_id: bool,
    pub min_spend_interval_ms: u64,
    pub allowlist: Vec<String>,
}

/// Whether `p` is the policy every fresh wallet starts with.
pub open spec fn is_default_policy(p: SpendingPolicy) -> bool {
    &&& p.max_per_tx == 1_000_000
    &&& p.daily_limit == 10_000_000
    &&& p.approval_threshold == 5_000_000
    &&& !p.require_context_id
    &&& p.min_spend_interval_ms == 0
    &&& p.allowlist@.len() == 0
}

/// The policy every fresh wallet starts with: 0.01 ZEC per send, 0.1 ZEC a day, operator
/// approval above 0.05 ZEC, no context id required, no spacing between sends, no allowlist.
/// Init and restore share it, so a restored wallet is never unlimited.
pub fn default_policy() -> (p: SpendingPolicy)
    ensures
        is_default_policy(p),
{
    SpendingPolicy {
        max_per_tx: 1_000_000,
        daily_limit: 10_000_000,
        approval_threshold: 5_000_000,
        require_context_id: false,
        min_spend_interval_ms: 0,
        allowlist: Vec::new(),
    }
}

/// Why a wallet step was refused.
#[derive(Debug, Clone, PartialEq, Eq)]
pub enum WalletError {
    /// The vault passphrase is empty and the operator has not accepted that on purpose.
    EmptyPassphrase,
    /// The named vault wallet holds a private key, not a mnemonic.
    PrivateKeyWallet(String),
    /// The named vault wallet already exists; a restore will not overwrite it.
    WalletExists(String),
    /// A seed phrase with this many words instead of 24.
    WrongWordCount(usize),
    /// A step this build does not perform; the text says what to do instead.
    Unavailable(String),
    /// The data directory (named) already holds a wallet.
    DataExists(String),
    /// Exporting the existing vault wallet's seed failed, for the reason given.
    ExportFailed(String),
    /// Creating a vault wallet failed, for the reason given.
    CreateFailed(String),
    /// Exporting the seed of the vault wallet just created failed, for the reason given.
    NewSeedExportFailed(String),
    /// Storing the restored seed in the vault failed, for the reason given.
    StoreFailed(String),
    /// Restoring from the network failed, for the reason given; what the restore had put in
    /// place was removed.
    RestoreFailed(String),
}

/// The text shown for a wallet error.
pub open spec fn wallet_error_text(e: WalletError) -> Seq<char> {
    match e {
        WalletError::EmptyPassphrase =>
            "OWS_PASSPHRASE is empty. Set a real vault passphrase, or set              ZUMBRA_UNSAFE_EMPTY_PASSPHRASE=1 to accept an unprotected vault."@,
        WalletError::PrivateKeyWallet(name) => "OWS wallet '"@ + name@
            + "' is a private-key wallet, not mnemonic. Zcash requires a mnemonic wallet for ZIP-32 key derivation."@,
        WalletError::WalletExists(name) => "OWS wallet '"@ + name@
            + "' already exists. Set OWS_WALLET to a new name for the restored seed, and keep OWS_WALLET set to that name whenever you run zumbra or zumbra-mcp."@,
        WalletError::WrongWordCount(n) => "Expected a 24-word seed phrase on stdin, got "@
            + decimal(n as nat)
            + " words. Usage: zumbra wallet restore --birthday <height> < seed.txt"@,
        WalletError::Unavailable(text) => text@,
        WalletError::DataExists(dir) => "Wallet already exists in "@ + dir@
            + ". Use `wallet delete --confirm` first."@,
        WalletError::ExportFailed(why) => "Failed to export OWS wallet: "@ + why@,
        WalletError::CreateFailed(why) => "Failed to create OWS wallet: "@ + why@,
        WalletError::NewSeedExportFailed(why) => "Failed to export seed from new wallet: "@ + why@,
        WalletError::StoreFailed(why) => "Failed to store the seed in the OWS vault: "@ + why@,
        WalletError::RestoreFailed(why) => "Restore failed and nothing was kept: "@ + why@
            + ". Fix the cause (usually the server) and run restore again."@,
    }
}

impl WalletError {
    /// The message shown for this error.
    pub fn describe(&self) -> (text: String)
        ensures
            text@ == wallet_error_text(*self),
    {
        match self {
            WalletError::EmptyPassphrase => String::from_str(
                "OWS_PASSPHRASE is empty. Set a real vault passphrase, or set              ZUMBRA_UNSAFE_EMPTY_PASSPHRASE=1 to accept an unprotected vault.",
            ),
            WalletError::PrivateKeyWallet(name) => {
                let mut t = String::from_str("OWS wallet '");
                t.append(name.as_str());
                t.append(
                    "' is a private-key wallet, not mnemonic. Zcash requires a mnemonic wallet for ZIP-32 key derivation.",
                );
                t
            },
            WalletError::WalletExists(name) => {
                let mut t = String::from_str("OWS wallet '");
                t.append(name.as_str());
                t.append(
                    "' already exists. Set OWS_WALLET to a new name for the restored seed, and keep OWS_WALLET set to that name whenever you run zumbra or zumbra-mcp.",
                );
                t
            },
            WalletError::WrongWordCount(n) => {
                let mut t = String::from_str("Expected a 24-word seed phrase on stdin, got ");
                push_decimal(&mut t, *n as u64);
                t.append(" words. Usage: zumbra wallet restore --birthday <height> < seed.txt");
                t
            },
            WalletError::Unavailable(text) => text.clone(),
            WalletError::DataExists(dir) => {
                let mut t = String::from_str("Wallet already exists in ");
                t.append(dir.as_str());
                t.append(". Use `wallet delete --confirm` first.");
                t
            },
            WalletError::ExportFailed(why) => {
                let mut t = String::from_str("Failed to export OWS wallet: ");
                t.append(why.as_str());
                t
            },
            WalletError::CreateFailed(why) => {
                let mut t = String::from_str("Failed to create OWS wallet: ");
                t.append(why.as_str());
                t
            },
            WalletError::NewSeedExportFailed(why) => {
                let mut t = String::from_str("Failed to export seed from new wallet: ");
                t.append(why.as_str());
                t
            },
            WalletError::StoreFailed(why) => {
                let mut t = String::from_str("Failed to store the seed in the OWS vault: ");
                t.append(why.as_str());
                t
            },
            WalletError::RestoreFailed(why) => {
                let mut t = String::from_str("Restore failed and nothing was kept: ");
                t.append(why.as_str());
                t.append(". Fix the cause (usually the server) and run restore again.");
                t
            },
        }
    }
}

/// An empty passphrase is refused unless `ZUMBRA_UNSAFE_EMPTY_PASSPHRASE` is exactly `1`.
pub open spec fn passphrase_refused(passphrase: Seq<char>, unsafe_override: Option<&str>) -> bool {
    passphrase.len() == 0 && !(unsafe_override matches Some(v) && v@ == "1"@)
}

/// An empty vault passphrase protects nothing. It is refused at every point that would store
/// a seed, unless the operator set `ZUMBRA_UNSAFE_EMPTY_PASSPHRASE=1` on purpose (its value,
/// if set, is `unsafe_override`).
pub fn require_passphrase(passphrase: &str, unsafe_override: Option<&str>) -> (res: Result<
    (),
    WalletError,
>)
    ensures
        passphrase_refused(passphrase@, unsafe_override) ==> res == Err::<(), WalletError>(
            WalletError::EmptyPassphrase,
        ),
        !passphrase_refused(passphrase@, unsafe_override) ==> res is Ok,
{
    let overridden = match unsafe_override {
        Some(v) => same_text(v, "1"),
        None => false,
    };
    if passphrase.is_empty() && !overridden {
        return Err(WalletError::EmptyPassphrase);
    }
    Ok(())
}

/// An exported vault secret that is a mnemonic: it has a space and is not a JSON object.
pub open spec fn is_mnemonic_text(exported: Seq<char>) -> bool {
    seq_contains(exported, " "@) && !seq_starts_with(exported, "{"@)
}

/// Whether an exported vault secret is a mnemonic (words separated by spaces) rather than a
/// private key or a JSON key file.
pub fn is_mnemonic_export(exported: &str) -> (res: bool)
    ensures
        res == is_mnemonic_text(exported@),
{
    contains(exported, " ") && !starts_with(exported, "{")
}

/// The seed exported from an existing vault wallet, if it is a mnemonic; Zcash key derivation
/// (ZIP-32) needs one.
pub fn check_vault_export(ows_wallet: &str, exported: String) -> (res: Result<String, WalletError>)
    ensures
        is_mnemonic_text(exported@) ==> res == Ok::<String, WalletError>(exported),
        !is_mnemonic_text(exported@) ==> (res matches Err(WalletError::PrivateKeyWallet(name))
            && name@ == ows_wallet@),
{
    if is_mnemonic_export(exported.as_str()) {
        Ok(exported)
    } else {
        Err(WalletError::PrivateKeyWallet(String::from_str(ows_wallet)))
    }
}

/// A restore phrase must have exactly 24 words.
pub fn check_restore_phrase(phrase: &str) -> (res: Result<(), WalletError>)
    ensures
        word_count(phrase@) == 24 ==> res is Ok,
        word_count(phrase@) != 24 ==> (res matches Err(WalletError::WrongWordCount(n)) && n
            == word_count(phrase@)),
{
    let words = count_words(phrase);
    if words != 24 {
        return Err(WalletError::WrongWordCount(words));
    }
    Ok(())
}

/// What a restore put in place before it touched the network: the vault wallet and the policy
/// file. If the step after it fails, both are removed again, so a half-done restore cannot be
/// mistaken for a wallet by the next `wallet init`.
#[derive(Debug, Clone, PartialEq, Eq)]
pub struct RestoreStaging {
    ows_wallet: String,
    vault_path: Option<String>,
    policy_path: String,
}

impl RestoreStaging {
    /// The vault wallet's name.
    pub closed spec fn wallet_name(&self) -> Seq<char> {
        self.ows_wallet@
    }

    /// The vault directory, when it is not the default one.
    pub closed spec fn vault_dir(&self) -> Option<String> {
        self.vault_path
    }

    /// The policy file.
    pub closed spec fn policy_file(&self) -> Seq<char> {
        self.policy_path@
    }

    /// The vault wallet that holds the restored seed.
    pub fn ows_wallet(&self) -> (s: &str)
        ensures
            s@ == self.wallet_name(),
    {
        self.ows_wallet.as_str()
    }

    /// The vault directory, when it is not the default one.
    pub fn vault_path(&self) -> (p: &Option<String>)
        ensures
            *p == self.vault_dir(),
    {
        &self.vault_path
    }

    /// The default policy file that was written.
    pub fn policy_path(&self) -> (s: &str)
        ensures
            s@ == self.policy_file(),
    {
        self.policy_path.as_str()
    }
}

/// Everything restore decides before it touches the network: refuses an empty passphrase
/// (unless overridden) and a vault wallet that already exists (`wallet_exists`), so that a
/// typo cannot overwrite a seed. Otherwise the phrase goes into the vault under `ows_wallet`
/// and nowhere else, and the data directory gets the default policy at `policy.toml`; the
/// staging returned names both for a rollback.
pub fn prepare_restore(
    data_dir: &str,
    ows_wallet: &str,
    passphrase: &str,
    unsafe_override: Option<&str>,
    vault_path: Option<String>,
    wallet_exists: bool,
) -> (res: Result<RestoreStaging, WalletError>)
    ensures
        passphrase_refused(passphrase@, unsafe_override) ==> res == Err::<
            RestoreStaging,
            WalletError,
        >(WalletError::EmptyPassphrase),
        !passphrase_refused(passphrase@, unsafe_override) && wallet_exists ==> (res matches Err(
            WalletError::WalletExists(name),
        ) && name@ == ows_wallet@),
        !passphrase_refused(passphrase@, unsafe_override) && !wallet_exists ==> (res matches Ok(
            s,
        ) && s.wallet_name() == ows_wallet@ && s.vault_dir() == vault_path && s.policy_file()
            == join_path(data_dir@, "policy.toml"@)),
{
    if let Err(e) = require_passphrase(passphrase, unsafe_override) {
        return Err(e);
    }
    if wallet_exists {
        return Err(WalletError::WalletExists(String::from_str(ows_wallet)));
    }
    Ok(
        RestoreStaging {
            ows_wallet: String::from_str(ows_wallet),
            vault_path,
            policy_path: join(data_dir, "policy.toml"),
        },
    )
}

/// Headless Ironwood execution is not connected to the migration runner; nothing is signed
/// or scheduled.
pub fn cmd_ironwood_confirm(_cfg: &Config, _tor: bool) -> (res: Result<(), WalletError>)
    ensures
        res matches Err(WalletError::Unavailable(t)) && t@
            == "Headless Ironwood execution is not connected to the SDK runner. Use the wallet app to review and execute the transfer; no legacy JSON schedule was created."@,
{
    Err(
        WalletError::Unavailable(
            String::from_str(
                "Headless Ironwood execution is not connected to the SDK runner. Use the wallet app to review and execute the transfer; no legacy JSON schedule was created.",
            ),
        ),
    )
}

/// Headless pause cannot control the migration runner; nothing is paused.
pub fn cmd_ironwood_pause(_cfg: &Config) -> (res: Result<(), WalletError>)
    ensures
        res matches Err(WalletError::Unavailable(t)) && t@
            == "Headless pause cannot control the SDK migration runner. Use the wallet app managing this transfer. Nothing was paused."@,
{
    Err(
        WalletError::Unavailable(
            String::from_str(
                "Headless pause cannot control the SDK migration runner. Use the wallet app managing this transfer. Nothing was paused.",
            ),
        ),
    )
}

/// Headless resume is not connected to the migration runner; nothing is resumed.
pub fn cmd_ironwood_resume(_cfg: &Config) -> (res: Result<(), WalletError>)
    ensures
        res matches Err(WalletError::Unavailable(t)) && t@
            == "Headless resume is not connected to the SDK migration runner. Use the wallet app managing this transfer. Nothing was resumed."@,
{
    Err(
        WalletError::Unavailable(
            String::from_str(
                "Headless resume is not connected to the SDK migration runner. Use the wallet app managing this transfer. Nothing was resumed.",
            ),
        ),
    )
}

// ---------------------------------------------------------------------------------------------
// The pending proposal and the confirm guard
// ---------------------------------------------------------------------------------------------

/// A send proposed on the command line and waiting for `send confirm`.
#[derive(Debug, Clone, PartialEq, Eq)]
pub struct PendingProposal {
    pub address: String,
    pub amount: u64,
    pub memo: Option<String>,
    pub is_max: bool,
    pub context_id: Option<String>,
}

/// The pending proposal for a send the engine has just proposed: a `--max` send records the
/// amount the engine will send, any other the amount asked for.
pub fn pending_proposal(
    to: String,
    amount: u64,
    memo: Option<String>,
    is_max: bool,
    context_id: Option<String>,
    send_amount: u64,
) -> (p: PendingProposal)
    ensures
        p.address == to,
        p.amount == (if is_max {
            send_amount
        } else {
            amount
        }),
        p.memo == memo,
        p.is_max == is_max,
        p.context_id == context_id,
{
    PendingProposal {
        address: to,
        amount: if is_max {
            send_amount
        } else {
            amount
        },
        memo,
        is_max,
        context_id,
    }
}

/// Where the confirm guard stands.
#[derive(Debug, Clone, PartialEq, Eq)]
pub enum GuardStage {
    /// Waiting for the spending policy to load.
    Policy,
    /// Waiting for today's spending from the audit log.
    DailySpent,
    /// Waiting for the policy's verdict on the send.
    Verdict,
    /// Waiting for the refusal to be written to the audit log.
    Logging(String),
    /// Finished.
    Done,
}

/// What the confirm guard asks for next.
#[derive(Debug, Clone, PartialEq, Eq)]
pub enum GuardAction {
    /// Load the spending policy; a missing or corrupt file is an error.
    LoadPolicy,
    /// Read today's spending from the audit log.
    ReadDailySpent,
    /// Judge the send against the policy.
    CheckProposal { address: String, amount: u64, context_id: Option<String>, daily_spent: u64 },
    /// Write the refusal to the audit log under `confirm_send`; a failure to write is ignored.
    LogRefusal { address: String, amount: u64, context_id: Option<String>, error: String },
    /// The policy passed: the seed may be read now.
    ReadSeed,
    /// Refuse the send with this message.
    Fail(String),
}

/// What the work asked for gave.
#[derive(Debug, PartialEq, Eq)]
pub enum GuardEvent {
    PolicyLoaded(Result<(), String>),
    DailySpent(Result<u64, String>),
    Verdict(Result<(), String>),
    Logged,
}

/// The guard every command-line confirm passes through before the seed is read: the policy
/// judges the amount the engine will actually send (a `--max` proposal has none until then,
/// and the pending file is writable by the agent's user), and a refusal is logged.
#[derive(Debug, Clone, PartialEq, Eq)]
pub struct ConfirmGuard {
    stage: GuardStage,
    address: String,
    send_amount: u64,
    context_id: Option<String>,
    policy_passed: bool,
}

/// The policy's verdict on the send came back without a violation.
pub open spec fn clean_verdict(event: GuardEvent) -> bool {
    match event {
        GuardEvent::Verdict(Ok(_)) => true,
        _ => false,
    }
}

/// The message of a send refused because the policy could not be loaded.
pub open spec fn policy_unavailable_text(why: Seq<char>) -> Seq<char> {
    "Spending policy unavailable, refusing to spend: "@ + why
}

/// The policy a spend path may use: the file must have loaded and parsed. A missing or corrupt
/// policy refuses to spend; it never becomes "no limits".
pub fn spend_policy<P>(loaded: Result<P, String>) -> (res: Result<P, String>)
    ensures
        loaded is Ok ==> res == loaded,
        loaded matches Err(e) ==> (res matches Err(m) && m@ == policy_unavailable_text(e@)),
{
    match loaded {
        Ok(p) => Ok(p),
        Err(e) => {
            let mut m = String::from_str("Spending policy unavailable, refusing to spend: ");
            m.append(e.as_str());
            Err(m)
        },
    }
}

impl ConfirmGuard {
    /// Where the guard stands.
    pub closed spec fn stage(&self) -> GuardStage {
        self.stage
    }

    /// The send being judged: its address, the amount the engine will send, its context.
    pub closed spec fn send(&self) -> (String, u64, Option<String>) {
        (self.address, self.send_amount, self.context_id)
    }

    /// The policy's verdict on this send came back clean.
    pub closed spec fn policy_passed(&self) -> bool {
        self.policy_passed
    }

    /// The event that the current stage waits for.
    pub open spec fn expects(&self, event: GuardEvent) -> bool {
        match (self.stage(), event) {
            (GuardStage::Policy, GuardEvent::PolicyLoaded(_)) => true,
            (GuardStage::DailySpent, GuardEvent::DailySpent(_)) => true,
            (GuardStage::Verdict, GuardEvent::Verdict(_)) => true,
            (GuardStage::Logging(_), GuardEvent::Logged) => true,
            _ => false,
        }
    }

    /// Takes the result of the work last asked for and says what to do next. The seed is asked
    /// for only once the policy's verdict on the send amount has come back clean.
    pub fn step(&mut self, event: GuardEvent) -> (action: GuardAction)
        requires
            old(self).expects(event),
        ensures
            final(self).send() == old(self).send(),
            action == GuardAction::ReadSeed ==> final(self).policy_passed(),
            action == GuardAction::ReadSeed <==> (old(self).stage() == GuardStage::Verdict
                && clean_verdict(event)),
            match (old(self).stage(), event) {
                (GuardStage::Policy, GuardEvent::PolicyLoaded(Err(e))) => {
                    &&& final(self).stage() == GuardStage::Done
                    &&& action matches GuardAction::Fail(m) && m@ == policy_unavailable_text(e@)
                },
                (GuardStage::Policy, GuardEvent::PolicyLoaded(Ok(_))) => {
                    &&& final(self).stage() == GuardStage::DailySpent
                    &&& action == GuardAction::ReadDailySpent
                },
                (GuardStage::DailySpent, GuardEvent::DailySpent(Err(e))) => {
                    &&& final(self).stage() == GuardStage::Done
                    &&& action == GuardAction::Fail(e)
                },
                (GuardStage::DailySpent, GuardEvent::DailySpent(Ok(d))) => {
                    &&& final(self).stage() == GuardStage::Verdict
                    &&& action == GuardAction::CheckProposal {
                        address: old(self).send().0,
                        amount: old(self).send().1,
                        context_id: old(self).send().2,
                        daily_spent: d,
                    }
                },
                (GuardStage::Verdict, GuardEvent::Verdict(Err(v))) => {
                    &&& final(self).stage() == GuardStage::Logging(v)
                    &&& action == GuardAction::LogRefusal {
                        address: old(self).send().0,
                        amount: old(self).send().1,
                        context_id: old(self).send().2,
                        error: v,
                    }
                },
                (GuardStage::Verdict, GuardEvent::Verdict(Ok(_))) => {
                    final(self).stage() == GuardStage::Done
                },
                (GuardStage::Logging(v), GuardEvent::Logged) => {
                    &&& final(self).stage() == GuardStage::Done
                    &&& action == GuardAction::Fail(v)
                },
                _ => false,
            },
    {
        match event {
            GuardEvent::PolicyLoaded(Err(e)) => {
                self.stage = GuardStage::Done;
                match spend_policy::<()>(Err(e)) {
                    Err(m) => GuardAction::Fail(m),
                    Ok(()) => GuardAction::Fail(String::new()),
                }
            },
            GuardEvent::PolicyLoaded(Ok(())) => {
                self.stage = GuardStage::DailySpent;
                GuardAction::ReadDailySpent
            },
            GuardEvent::DailySpent(Err(e)) => {
                self.stage = GuardStage::Done;
                GuardAction::Fail(e)
            },
            GuardEvent::DailySpent(Ok(d)) => {
                self.stage = GuardStage::Verdict;
                GuardAction::CheckProposal {
                    address: self.address.clone(),
                    amount: self.send_amount,
                    context_id: self.context_id.clone(),
                    daily_spent: d,
                }
            },
            GuardEvent::Verdict(Err(v)) => {
                self.stage = GuardStage::Logging(v.clone());
                GuardAction::LogRefusal {
                    address: self.address.clone(),
                    amount: self.send_amount,
                    context_id: self.context_id.clone(),
                    error: v,
                }
            },
            GuardEvent::Verdict(Ok(())) => {
                self.stage = GuardStage::Done;
                self.policy_passed = true;
                GuardAction::ReadSeed
            },
            GuardEvent::Logged => {
                let v = match &self.stage {
                    GuardStage::Logging(v) => v.clone(),
                    _ => String::new(),
                };
                self.stage = GuardStage::Done;
                GuardAction::Fail(v)
            },
        }
    }
}

/// A guard is all in its stage, its send and whether the policy passed: two guards that agree
/// on these are the same. With [`seed_for_confirm`], whose guard keeps only the pending
/// proposal's address and context and the amount the engine will send, two confirmations of
/// proposals that differ only in the amount asked, the memo or `--max` run the same guard: the
/// policy's verdict, and whether the seed is read, do not depend on them.
pub proof fn lemma_guard_is_its_send(g1: ConfirmGuard, g2: ConfirmGuard)
    requires
        g1.stage() == g2.stage(),
        g1.send() == g2.send(),
        g1.policy_passed() == g2.policy_passed(),
    ensures
        g1 == g2,
{
}

/// Opens the guard that every command-line confirm passes before the seed is read, for the
/// pending proposal and the amount the engine will actually send; the first step is to load
/// the policy.
pub fn seed_for_confirm(pending: &PendingProposal, send_amount: u64) -> (res: (ConfirmGuard, GuardAction))
    ensures
        res.0.stage() == GuardStage::Policy,
        res.0.send() == (pending.address, send_amount, pending.context_id),
        !res.0.policy_passed(),
        res.1 == GuardAction::LoadPolicy,
{
    (
        ConfirmGuard {
            stage: GuardStage::Policy,
            address: pending.address.clone(),
            send_amount,
            context_id: pending.context_id.clone(),
            policy_passed: false,
        },
        GuardAction::LoadPolicy,
    )
}

} // verus!
