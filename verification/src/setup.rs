//! Setting a wallet up: the vault seed that `wallet init` uses, `wallet init` itself, and
//! `wallet restore`. Like the send paths, each is a small machine that asks for one piece of
//! outside work at a time (the encrypted vault, the data directory, the network) and decides
//! from the result what comes next.
use vstd::prelude::*;

use crate::config::Config;
use crate::text::{join_path, trim, trimmed, word_count};
use crate::wallet::{
    check_restore_phrase, default_policy, is_default_policy, is_mnemonic_export, is_mnemonic_text,
    passphrase_refused, prepare_restore, require_passphrase, wallet_error_text, RestoreStaging,
    SpendingPolicy, WalletError,
};

verus! {

// ---------------------------------------------------------------------------------------------
// The vault seed for wallet init
// ---------------------------------------------------------------------------------------------

/// What the vault seed asks of the encrypted vault next.
#[derive(Debug, PartialEq, Eq)]
pub enum VaultAction {
    /// Look the named wallet up in the vault.
    LookUp { name: String },
    /// Export the named wallet's secret with the passphrase.
    Export { name: String },
    /// Create the named wallet with a fresh mnemonic of `words` words.
    Create { name: String, words: u32 },
    /// Done: whether the seed was created just now (only then may it be shown), or why not.
    Finish(Result<bool, WalletError>),
}

/// What the vault gave.
#[derive(Debug, PartialEq, Eq)]
pub enum VaultEvent {
    /// Whether the named wallet is in the vault.
    Found(bool),
    /// The exported secret, or why the export failed.
    Exported(Result<String, String>),
    /// Whether the wallet was created, or why not.
    Created(Result<(), String>),
}

/// Where the vault seed stands.
#[derive(Debug, Clone, Copy, PartialEq, Eq)]
pub enum VaultStage {
    LookUp,
    Exporting,
    Creating,
    ExportingNew,
    Done,
}

/// The seed for `wallet init`: the existing vault wallet's if there is one, which must be a
/// mnemonic (the seed was not created here), otherwise a fresh 24-word one (created here).
/// An empty passphrase is refused before the vault is touched.
#[derive(Debug, Clone, PartialEq, Eq)]
pub struct VaultSeed {
    stage: VaultStage,
    name: String,
}

impl VaultSeed {
    /// Where the vault seed stands.
    pub closed spec fn stage(&self) -> VaultStage {
        self.stage
    }

    /// The vault wallet's name.
    pub closed spec fn name(&self) -> String {
        self.name
    }

    /// The event that the current stage waits for.
    pub open spec fn expects(&self, event: VaultEvent) -> bool {
        match (self.stage(), event) {
            (VaultStage::LookUp, VaultEvent::Found(_)) => true,
            (VaultStage::Exporting, VaultEvent::Exported(_)) => true,
            (VaultStage::Creating, VaultEvent::Created(_)) => true,
            (VaultStage::ExportingNew, VaultEvent::Exported(_)) => true,
            _ => false,
        }
    }

    /// Takes what the vault gave and says what to do next. The seed is reported as created
    /// only when this machine created the vault wallet.
    pub fn step(&mut self, event: VaultEvent) -> (action: VaultAction)
        requires
            old(self).expects(event),
        ensures
            final(self).name() == old(self).name(),
            action == VaultAction::Finish(Ok(true)) ==> old(self).stage() == VaultStage::ExportingNew,
            match (old(self).stage(), event) {
                (VaultStage::LookUp, VaultEvent::Found(true)) => {
                    &&& final(self).stage() == VaultStage::Exporting
                    &&& action == VaultAction::Export { name: old(self).name() }
                },
                (VaultStage::LookUp, VaultEvent::Found(false)) => {
                    &&& final(self).stage() == VaultStage::Creating
                    &&& action == VaultAction::Create { name: old(self).name(), words: 24 }
                },
                (VaultStage::Exporting, VaultEvent::Exported(Err(e))) => {
                    &&& final(self).stage() == VaultStage::Done
                    &&& action == VaultAction::Finish(Err(WalletError::ExportFailed(e)))
                },
                (VaultStage::Exporting, VaultEvent::Exported(Ok(secret))) => {
                    &&& final(self).stage() == VaultStage::Done
                    &&& action == VaultAction::Finish(
                        if is_mnemonic_text(secret@) {
                            Ok(false)
                        } else {
                            Err(WalletError::PrivateKeyWallet(old(self).name()))
                        },
                    )
                },
                (VaultStage::Creating, VaultEvent::Created(Err(e))) => {
                    &&& final(self).stage() == VaultStage::Done
                    &&& action == VaultAction::Finish(Err(WalletError::CreateFailed(e)))
                },
                (VaultStage::Creating, VaultEvent::Created(Ok(_))) => {
                    &&& final(self).stage() == VaultStage::ExportingNew
                    &&& action == VaultAction::Export { name: old(self).name() }
                },
                (VaultStage::ExportingNew, VaultEvent::Exported(Err(e))) => {
                    &&& final(self).stage() == VaultStage::Done
                    &&& action == VaultAction::Finish(Err(WalletError::NewSeedExportFailed(e)))
                },
                (VaultStage::ExportingNew, VaultEvent::Exported(Ok(_))) => {
                    &&& final(self).stage() == VaultStage::Done
                    &&& action == VaultAction::Finish(Ok(true))
                },
                _ => false,
            },
    {
        let stage = self.stage;
        match (stage, event) {
            (VaultStage::LookUp, VaultEvent::Found(true)) => {
                self.stage = VaultStage::Exporting;
                VaultAction::Export { name: self.name.clone() }
            },
            (VaultStage::LookUp, VaultEvent::Found(false)) => {
                self.stage = VaultStage::Creating;
                VaultAction::Create { name: self.name.clone(), words: 24 }
            },
            (VaultStage::Exporting, VaultEvent::Exported(r)) => {
                self.stage = VaultStage::Done;
                match r {
                    Err(e) => VaultAction::Finish(Err(WalletError::ExportFailed(e))),
                    Ok(secret) => if is_mnemonic_export(secret.as_str()) {
                        VaultAction::Finish(Ok(false))
                    } else {
                        VaultAction::Finish(Err(WalletError::PrivateKeyWallet(self.name.clone())))
                    },
                }
            },
            (VaultStage::Creating, VaultEvent::Created(Err(e))) => {
                self.stage = VaultStage::Done;
                VaultAction::Finish(Err(WalletError::CreateFailed(e)))
            },
            (VaultStage::Creating, VaultEvent::Created(Ok(()))) => {
                self.stage = VaultStage::ExportingNew;
                VaultAction::Export { name: self.name.clone() }
            },
            (_, VaultEvent::Exported(Err(e))) => {
                self.stage = VaultStage::Done;
                VaultAction::Finish(Err(WalletError::NewSeedExportFailed(e)))
            },
            _ => {
                self.stage = VaultStage::Done;
                VaultAction::Finish(Ok(true))
            },
        }
    }
}

/// The vault seed for `wallet init` from the vault wallet `ows_wallet`: an empty passphrase is
/// refused at once (unless `ZUMBRA_UNSAFE_EMPTY_PASSPHRASE` is `1`); otherwise the wallet is
/// looked up first.
pub fn open_or_create_vault_seed(ows_wallet: &str, passphrase: &str, unsafe_override: Option<&str>) -> (res: (
    VaultSeed,
    VaultAction,
))
    ensures
        res.0.name()@ == ows_wallet@,
        passphrase_refused(passphrase@, unsafe_override) ==> {
            &&& res.0.stage() == VaultStage::Done
            &&& res.1 == VaultAction::Finish(Err(WalletError::EmptyPassphrase))
        },
        !passphrase_refused(passphrase@, unsafe_override) ==> {
            &&& res.0.stage() == VaultStage::LookUp
            &&& res.1 == VaultAction::LookUp { name: res.0.name() }
        },
{
    let name = String::from_str(ows_wallet);
    match require_passphrase(passphrase, unsafe_override) {
        Err(e) => (VaultSeed { stage: VaultStage::Done, name }, VaultAction::Finish(Err(e))),
        Ok(()) => {
            let n = name.clone();
            (VaultSeed { stage: VaultStage::LookUp, name }, VaultAction::LookUp { name: n })
        },
    }
}

// ---------------------------------------------------------------------------------------------
// wallet init, wallet restore
// ---------------------------------------------------------------------------------------------

/// What `wallet init` and `wallet restore` print when they succeed.
#[derive(Debug, Clone, PartialEq, Eq)]
pub enum SetupOutput {
    /// A new wallet; its seed is shown only if `seed_shown` (the seed was created just now).
    Initialized {
        seed_shown: bool,
        birthday: u32,
        address: String,
        data_dir: String,
        ows_wallet: String,
        policy: SpendingPolicy,
    },
    /// A restored wallet.
    Restored { address: String, birthday: u32, data_dir: String, ows_wallet: String },
}

/// The work a setup command asks for next.
#[derive(Debug, PartialEq, Eq)]
pub enum SetupAction {
    /// Create the data directory if it is missing.
    EnsureDataDir,
    /// Make sure the Sapling proving parameters are on disk.
    EnsureParams,
    /// Check whether the data directory already holds a wallet database.
    CheckWalletData,
    /// Get the vault seed (`open_or_create_vault_seed`) from the named vault wallet.
    OpenVaultSeed { ows_wallet: String },
    /// Ask the server for the chain's latest height.
    FetchHeight,
    /// Create the wallet database from the seed, scanning from `birthday`: from `phrase` when
    /// it is given (a restore), from the vault seed just opened otherwise (init). The database
    /// gets no vault of its own, so the seed is kept only in the encrypted vault.
    Restore { birthday: u32, phrase: Option<String> },
    /// Write the spending policy to the data directory.
    SavePolicy(SpendingPolicy),
    /// List the wallet's addresses (a failure gives none).
    ListAddresses,
    /// Read the seed phrase from stdin.
    ReadPhrase,
    /// Look the named wallet up in the vault.
    LookUpVaultWallet { name: String },
    /// Store `phrase` in the encrypted vault under the name, sealed with `passphrase`.
    ImportPhrase { name: String, phrase: String, passphrase: String },
    /// Remove what the restore put in place (failures are ignored).
    Rollback(RestoreStaging),
    /// The command is over: close the wallet first if `close`, then print the output or fail
    /// with the message.
    Finish { close: bool, result: Result<SetupOutput, String> },
}

/// What the work asked for gave.
#[derive(Debug, PartialEq, Eq)]
pub enum SetupEvent {
    DataDirReady(Result<(), String>),
    ParamsReady(Result<(), String>),
    /// Whether the data directory holds a wallet database.
    WalletData(bool),
    /// Whether the vault seed was created just now, or why there is none.
    VaultSeed(Result<bool, WalletError>),
    Height(Result<u64, String>),
    Restored(Result<(), String>),
    PolicySaved(Result<(), String>),
    AddressesListed(Result<Vec<String>, String>),
    /// The line read from stdin.
    PhraseRead(String),
    /// Whether the named wallet is in the vault.
    VaultWallet(bool),
    Imported(Result<(), String>),
    RolledBack,
}

/// Whether `action` ends the command with the message `message`, without closing the wallet.
pub open spec fn fails_with(action: SetupAction, message: Seq<char>) -> bool {
    action matches SetupAction::Finish { close, result: Err(m) } && !close && m@ == message
}

/// The address a setup command reports: the first one listed, or none.
pub open spec fn first_address(listed: Result<Vec<String>, String>) -> Seq<char> {
    match listed {
        Ok(v) => if v@.len() > 0 {
            v@[0]@
        } else {
            Seq::empty()
        },
        Err(_) => Seq::empty(),
    }
}

fn first_of(listed: Result<Vec<String>, String>) -> (a: String)
    ensures
        a@ == first_address(listed),
{
    match listed {
        Ok(v) => if v.len() > 0 {
            v[0].clone()
        } else {
            String::new()
        },
        Err(_) => String::new(),
    }
}

fn data_exists(data_dir: &String) -> (m: String)
    ensures
        m@ == wallet_error_text(WalletError::DataExists(*data_dir)),
{
    WalletError::DataExists(data_dir.clone()).describe()
}

/// Where `wallet init` stands.
#[derive(Debug, Clone, Copy, PartialEq, Eq)]
pub enum InitStage {
    DataDir,
    Params,
    Existing,
    Vault,
    Height { created: bool },
    Restore { created: bool, birthday: u32 },
    Policy { created: bool, birthday: u32 },
    Addresses { created: bool, birthday: u32 },
    Done,
}

/// `wallet init`: the data directory and proving parameters are put in place; a data
/// directory that already holds a wallet is refused; the vault seed is opened or created; the
/// wallet is created from it with the chain's latest height as its birthday, and gets the
/// default policy. The seed is shown only if it was created just now; one that already lived in
/// the vault is never printed.
#[derive(Debug, Clone, PartialEq, Eq)]
pub struct WalletInit {
    stage: InitStage,
    data_dir: String,
    ows_wallet: String,
}

impl WalletInit {
    /// Where the command stands.
    pub closed spec fn stage(&self) -> InitStage {
        self.stage
    }

    /// The data directory and the vault wallet's name.
    pub closed spec fn target(&self) -> (String, String) {
        (self.data_dir, self.ows_wallet)
    }

    /// The event that the current stage waits for.
    pub open spec fn expects(&self, event: SetupEvent) -> bool {
        match (self.stage(), event) {
            (InitStage::DataDir, SetupEvent::DataDirReady(_)) => true,
            (InitStage::Params, SetupEvent::ParamsReady(_)) => true,
            (InitStage::Existing, SetupEvent::WalletData(_)) => true,
            (InitStage::Vault, SetupEvent::VaultSeed(_)) => true,
            (InitStage::Height { .. }, SetupEvent::Height(_)) => true,
            (InitStage::Restore { .. }, SetupEvent::Restored(_)) => true,
            (InitStage::Policy { .. }, SetupEvent::PolicySaved(_)) => true,
            (InitStage::Addresses { .. }, SetupEvent::AddressesListed(_)) => true,
            _ => false,
        }
    }

    /// Takes the result of the work last asked for and says what to do next.
    pub fn step(&mut self, event: SetupEvent) -> (action: SetupAction)
        requires
            old(self).expects(event),
        ensures
            final(self).target() == old(self).target(),
            action matches SetupAction::Finish { result: Ok(SetupOutput::Initialized { seed_shown, .. }), .. }
                ==> (old(self).stage() matches InitStage::Addresses { created, .. } && seed_shown
                == created),
            match (old(self).stage(), event) {
                (InitStage::DataDir, SetupEvent::DataDirReady(Err(e))) => {
                    &&& final(self).stage() == InitStage::Done
                    &&& fails_with(action, e@)
                },
                (InitStage::DataDir, SetupEvent::DataDirReady(Ok(_))) => {
                    &&& final(self).stage() == InitStage::Params
                    &&& action == SetupAction::EnsureParams
                },
                (InitStage::Params, SetupEvent::ParamsReady(Err(e))) => {
                    &&& final(self).stage() == InitStage::Done
                    &&& fails_with(action, e@)
                },
                (InitStage::Params, SetupEvent::ParamsReady(Ok(_))) => {
                    &&& final(self).stage() == InitStage::Existing
                    &&& action == SetupAction::CheckWalletData
                },
                (InitStage::Existing, SetupEvent::WalletData(true)) => {
                    &&& final(self).stage() == InitStage::Done
                    &&& fails_with(
                        action,
                        wallet_error_text(WalletError::DataExists(old(self).target().0)),
                    )
                },
                (InitStage::Existing, SetupEvent::WalletData(false)) => {
                    &&& final(self).stage() == InitStage::Vault
                    &&& action == SetupAction::OpenVaultSeed { ows_wallet: old(self).target().1 }
                },
                (InitStage::Vault, SetupEvent::VaultSeed(Err(e))) => {
                    &&& final(self).stage() == InitStage::Done
                    &&& fails_with(action, wallet_error_text(e))
                },
                (InitStage::Vault, SetupEvent::VaultSeed(Ok(created))) => {
                    &&& final(self).stage() == InitStage::Height { created }
                    &&& action == SetupAction::FetchHeight
                },
                (InitStage::Height { .. }, SetupEvent::Height(Err(e))) => {
                    &&& final(self).stage() == InitStage::Done
                    &&& fails_with(action, e@)
                },
                (InitStage::Height { created }, SetupEvent::Height(Ok(h))) => {
                    &&& final(self).stage() == InitStage::Restore { created, birthday: h as u32 }
                    &&& action == SetupAction::Restore { birthday: h as u32, phrase: None }
                },
                (InitStage::Restore { .. }, SetupEvent::Restored(Err(e))) => {
                    &&& final(self).stage() == InitStage::Done
                    &&& fails_with(action, e@)
                },
                (InitStage::Restore { created, birthday }, SetupEvent::Restored(Ok(_))) => {
                    &&& final(self).stage() == InitStage::Policy { created, birthday }
                    &&& action matches SetupAction::SavePolicy(p)
                    &&& is_default_policy(p)
                },
                (InitStage::Policy { .. }, SetupEvent::PolicySaved(Err(e))) => {
                    &&& final(self).stage() == InitStage::Done
                    &&& fails_with(action, e@)
                },
                (InitStage::Policy { created, birthday }, SetupEvent::PolicySaved(Ok(_))) => {
                    &&& final(self).stage() == InitStage::Addresses { created, birthday }
                    &&& action == SetupAction::ListAddresses
                },
                (InitStage::Addresses { created, birthday }, SetupEvent::AddressesListed(listed)) => {
                    &&& final(self).stage() == InitStage::Done
                    &&& action matches SetupAction::Finish {
                        close,
                        result: Ok(
                            SetupOutput::Initialized {
                                seed_shown,
                                birthday: b,
                                address,
                                data_dir,
                                ows_wallet,
                                policy,
                            },
                        ),
                    }
                    &&& close
                    &&& seed_shown == created
                    &&& b == birthday
                    &&& address@ == first_address(listed)
                    &&& data_dir == old(self).target().0
                    &&& ows_wallet == old(self).target().1
                    &&& is_default_policy(policy)
                },
                _ => false,
            },
    {
        let stage = self.stage;
        match (stage, event) {
            (_, SetupEvent::DataDirReady(Err(e))) | (_, SetupEvent::ParamsReady(Err(e))) | (
                _,
                SetupEvent::Height(Err(e)),
            ) | (_, SetupEvent::Restored(Err(e))) | (_, SetupEvent::PolicySaved(Err(e))) => {
                self.stage = InitStage::Done;
                SetupAction::Finish { close: false, result: Err(e) }
            },
            (_, SetupEvent::DataDirReady(Ok(()))) => {
                self.stage = InitStage::Params;
                SetupAction::EnsureParams
            },
            (_, SetupEvent::ParamsReady(Ok(()))) => {
                self.stage = InitStage::Existing;
                SetupAction::CheckWalletData
            },
            (_, SetupEvent::WalletData(true)) => {
                self.stage = InitStage::Done;
                SetupAction::Finish { close: false, result: Err(data_exists(&self.data_dir)) }
            },
            (_, SetupEvent::WalletData(false)) => {
                self.stage = InitStage::Vault;
                SetupAction::OpenVaultSeed { ows_wallet: self.ows_wallet.clone() }
            },
            (_, SetupEvent::VaultSeed(Err(e))) => {
                self.stage = InitStage::Done;
                SetupAction::Finish { close: false, result: Err(e.describe()) }
            },
            (_, SetupEvent::VaultSeed(Ok(created))) => {
                self.stage = InitStage::Height { created };
                SetupAction::FetchHeight
            },
            (InitStage::Height { created }, SetupEvent::Height(Ok(h))) => {
                let birthday = h as u32;
                self.stage = InitStage::Restore { created, birthday };
                SetupAction::Restore { birthday, phrase: None }
            },
            (InitStage::Restore { created, birthday }, SetupEvent::Restored(Ok(()))) => {
                self.stage = InitStage::Policy { created, birthday };
                SetupAction::SavePolicy(default_policy())
            },
            (InitStage::Policy { created, birthday }, SetupEvent::PolicySaved(Ok(()))) => {
                self.stage = InitStage::Addresses { created, birthday };
                SetupAction::ListAddresses
            },
            (InitStage::Addresses { created, birthday }, SetupEvent::AddressesListed(listed)) => {
                self.stage = InitStage::Done;
                SetupAction::Finish {
                    close: true,
                    result: Ok(
                        SetupOutput::Initialized {
                            seed_shown: created,
                            birthday,
                            address: first_of(listed),
                            data_dir: self.data_dir.clone(),
                            ows_wallet: self.ows_wallet.clone(),
                            policy: default_policy(),
                        },
                    ),
                }
            },
            _ => SetupAction::Finish { close: false, result: Err(String::new()) },
        }
    }
}

/// `wallet init` for the vault wallet `ows_wallet`; the first step is to create the data
/// directory.
pub fn cmd_wallet_init(cfg: &Config, ows_wallet: String) -> (res: (WalletInit, SetupAction))
    ensures
        res.0.stage() == InitStage::DataDir,
        res.0.target() == (cfg.data_dir, ows_wallet),
        res.1 == SetupAction::EnsureDataDir,
{
    (
        WalletInit { stage: InitStage::DataDir, data_dir: cfg.data_dir.clone(), ows_wallet },
        SetupAction::EnsureDataDir,
    )
}

/// Where `wallet restore` stands.
#[derive(Debug, Clone, PartialEq, Eq)]
pub enum RestoreStage {
    DataDir,
    Existing,
    Phrase,
    VaultLookUp,
    Importing(RestoreStaging),
    SavingPolicy(RestoreStaging),
    Params(RestoreStaging),
    Restoring(RestoreStaging),
    RollingBack(String),
    Addresses,
    Done,
}

/// `wallet restore`: the data directory is created; one that already holds a wallet is
/// refused; the seed phrase is read from stdin (never from an argument) and must have 24
/// words; an empty passphrase is refused; a vault wallet of the same name is never
/// overwritten. The phrase read (trimmed) goes into the vault, sealed with the passphrase, and
/// to the wallet's restore, which keeps no copy; the default policy goes into the data directory;
/// if anything after the phrase is stored fails (writing the policy, getting the proving
/// parameters, restoring from the network), what was put in place is removed again, so a
/// half-done restore cannot be mistaken for a wallet.
#[derive(Clone, PartialEq, Eq)]
pub struct WalletRestore {
    stage: RestoreStage,
    data_dir: String,
    birthday: u32,
    ows_wallet: String,
    passphrase: String,
    unsafe_override: Option<String>,
    phrase: String,
}

/// The staging a restore puts in place for the vault wallet `name` and the data directory
/// `data_dir`.
pub open spec fn staged(st: RestoreStaging, name: Seq<char>, data_dir: Seq<char>) -> bool {
    &&& st.wallet_name() == name
    &&& st.vault_dir() is None
    &&& st.policy_file() == join_path(data_dir, "policy.toml"@)
}

fn text_of(o: &Option<String>) -> (r: Option<&str>)
    ensures
        r matches Some(t) ==> (*o matches Some(s) && t@ == s@),
        r is None <==> *o is None,
{
    match o {
        Some(s) => Some(s.as_str()),
        None => None,
    }
}

impl WalletRestore {
    /// Where the command stands.
    pub closed spec fn stage(&self) -> RestoreStage {
        self.stage
    }

    /// The data directory, the birthday and the vault wallet's name.
    pub closed spec fn target(&self) -> (String, u32, String) {
        (self.data_dir, self.birthday, self.ows_wallet)
    }

    /// The seed phrase read (once read), the vault passphrase and the value of
    /// `ZUMBRA_UNSAFE_EMPTY_PASSPHRASE`.
    pub closed spec fn secrets(&self) -> (Seq<char>, Seq<char>, Option<String>) {
        (self.phrase@, self.passphrase@, self.unsafe_override)
    }

    /// Whether the vault passphrase given is refused.
    pub closed spec fn passphrase_refused(&self) -> bool {
        self.passphrase@.len() == 0 && !(self.unsafe_override matches Some(v) && v@ == "1"@)
    }

    /// The event that the current stage waits for (the vault is looked up only for a
    /// passphrase that was not refused).
    pub open spec fn expects(&self, event: SetupEvent) -> bool {
        match (self.stage(), event) {
            (RestoreStage::DataDir, SetupEvent::DataDirReady(_)) => true,
            (RestoreStage::Existing, SetupEvent::WalletData(_)) => true,
            (RestoreStage::Phrase, SetupEvent::PhraseRead(_)) => true,
            (RestoreStage::VaultLookUp, SetupEvent::VaultWallet(_)) => !self.passphrase_refused(),
            (RestoreStage::Importing(_), SetupEvent::Imported(_)) => true,
            (RestoreStage::SavingPolicy(_), SetupEvent::PolicySaved(_)) => true,
            (RestoreStage::Params(_), SetupEvent::ParamsReady(_)) => true,
            (RestoreStage::Restoring(_), SetupEvent::Restored(_)) => true,
            (RestoreStage::RollingBack(_), SetupEvent::RolledBack) => true,
            (RestoreStage::Addresses, SetupEvent::AddressesListed(_)) => true,
            _ => false,
        }
    }

    /// Takes the result of the work last asked for and says what to do next. The phrase is
    /// stored in the vault only after the word count, the passphrase and the vault have been
    /// checked; any failure after it was stored is answered by a rollback.
    pub fn step(&mut self, event: SetupEvent) -> (action: SetupAction)
        requires
            old(self).expects(event),
        ensures
            final(self).target() == old(self).target(),
            final(self).passphrase_refused() == old(self).passphrase_refused(),
            final(self).secrets().1 == old(self).secrets().1,
            final(self).secrets().2 == old(self).secrets().2,
            !(event is PhraseRead) ==> final(self).secrets() == old(self).secrets(),
            (old(self).stage() is SavingPolicy || old(self).stage() is Params
                || old(self).stage() is Restoring) ==> !(action is Finish),
            action is ImportPhrase ==> {
                &&& old(self).stage() == RestoreStage::VaultLookUp
                &&& event == SetupEvent::VaultWallet(false)
                &&& !old(self).passphrase_refused()
            },
            match (old(self).stage(), event) {
                (RestoreStage::DataDir, SetupEvent::DataDirReady(Err(e))) => {
                    &&& final(self).stage() == RestoreStage::Done
                    &&& fails_with(action, e@)
                },
                (RestoreStage::DataDir, SetupEvent::DataDirReady(Ok(_))) => {
                    &&& final(self).stage() == RestoreStage::Existing
                    &&& action == SetupAction::CheckWalletData
                },
                (RestoreStage::Existing, SetupEvent::WalletData(true)) => {
                    &&& final(self).stage() == RestoreStage::Done
                    &&& fails_with(
                        action,
                        wallet_error_text(WalletError::DataExists(old(self).target().0)),
                    )
                },
                (RestoreStage::Existing, SetupEvent::WalletData(false)) => {
                    &&& final(self).stage() == RestoreStage::Phrase
                    &&& action == SetupAction::ReadPhrase
                },
                (RestoreStage::Phrase, SetupEvent::PhraseRead(line)) => if word_count(line@) != 24 {
                    &&& final(self).stage() == RestoreStage::Done
                    &&& fails_with(
                        action,
                        wallet_error_text(WalletError::WrongWordCount(word_count(line@) as usize)),
                    )
                } else if old(self).passphrase_refused() {
                    &&& final(self).stage() == RestoreStage::Done
                    &&& fails_with(action, wallet_error_text(WalletError::EmptyPassphrase))
                } else {
                    &&& final(self).stage() == RestoreStage::VaultLookUp
                    &&& final(self).secrets().0 == trimmed(line@)
                    &&& action == SetupAction::LookUpVaultWallet { name: old(self).target().2 }
                },
                (RestoreStage::VaultLookUp, SetupEvent::VaultWallet(true)) => {
                    &&& final(self).stage() == RestoreStage::Done
                    &&& fails_with(
                        action,
                        wallet_error_text(WalletError::WalletExists(old(self).target().2)),
                    )
                },
                (RestoreStage::VaultLookUp, SetupEvent::VaultWallet(false)) => {
                    &&& final(self).stage() matches RestoreStage::Importing(st)
                    &&& staged(st, old(self).target().2@, old(self).target().0@)
                    &&& action matches SetupAction::ImportPhrase { name, phrase, passphrase }
                    &&& name == old(self).target().2
                    &&& phrase@ == old(self).secrets().0
                    &&& passphrase@ == old(self).secrets().1
                },
                (RestoreStage::Importing(_), SetupEvent::Imported(Err(e))) => {
                    &&& final(self).stage() == RestoreStage::Done
                    &&& fails_with(action, wallet_error_text(WalletError::StoreFailed(e)))
                },
                (RestoreStage::Importing(st), SetupEvent::Imported(Ok(_))) => {
                    &&& final(self).stage() == RestoreStage::SavingPolicy(st)
                    &&& action matches SetupAction::SavePolicy(p)
                    &&& is_default_policy(p)
                },
                (RestoreStage::SavingPolicy(st), SetupEvent::PolicySaved(Err(e))) => {
                    &&& final(self).stage() matches RestoreStage::RollingBack(m)
                    &&& m@ == wallet_error_text(WalletError::RestoreFailed(e))
                    &&& action == SetupAction::Rollback(st)
                },
                (RestoreStage::SavingPolicy(st), SetupEvent::PolicySaved(Ok(_))) => {
                    &&& final(self).stage() == RestoreStage::Params(st)
                    &&& action == SetupAction::EnsureParams
                },
                (RestoreStage::Params(st), SetupEvent::ParamsReady(Err(e))) => {
                    &&& final(self).stage() matches RestoreStage::RollingBack(m)
                    &&& m@ == wallet_error_text(WalletError::RestoreFailed(e))
                    &&& action == SetupAction::Rollback(st)
                },
                (RestoreStage::Params(st), SetupEvent::ParamsReady(Ok(_))) => {
                    &&& final(self).stage() == RestoreStage::Restoring(st)
                    &&& action matches SetupAction::Restore { birthday, phrase: Some(phrase) }
                    &&& birthday == old(self).target().1
                    &&& phrase@ == old(self).secrets().0
                },
                (RestoreStage::Restoring(st), SetupEvent::Restored(Err(e))) => {
                    &&& final(self).stage() matches RestoreStage::RollingBack(m)
                    &&& m@ == wallet_error_text(WalletError::RestoreFailed(e))
                    &&& action == SetupAction::Rollback(st)
                },
                (RestoreStage::Restoring(_), SetupEvent::Restored(Ok(_))) => {
                    &&& final(self).stage() == RestoreStage::Addresses
                    &&& action == SetupAction::ListAddresses
                },
                (RestoreStage::RollingBack(m), SetupEvent::RolledBack) => {
                    &&& final(self).stage() == RestoreStage::Done
                    &&& action == SetupAction::Finish { close: false, result: Err(m) }
                },
                (RestoreStage::Addresses, SetupEvent::AddressesListed(listed)) => {
                    &&& final(self).stage() == RestoreStage::Done
                    &&& action matches SetupAction::Finish {
                        close,
                        result: Ok(SetupOutput::Restored { address, birthday, data_dir, ows_wallet }),
                    }
                    &&& close
                    &&& address@ == first_address(listed)
                    &&& birthday == old(self).target().1
                    &&& data_dir == old(self).target().0
                    &&& ows_wallet == old(self).target().2
                },
                _ => false,
            },
    {
        let mut stage = RestoreStage::Done;
        std::mem::swap(&mut stage, &mut self.stage);
        match (stage, event) {
            (_, SetupEvent::DataDirReady(Err(e))) => {
                SetupAction::Finish { close: false, result: Err(e) }
            },
            (_, SetupEvent::DataDirReady(Ok(()))) => {
                self.stage = RestoreStage::Existing;
                SetupAction::CheckWalletData
            },
            (_, SetupEvent::WalletData(true)) => {
                SetupAction::Finish { close: false, result: Err(data_exists(&self.data_dir)) }
            },
            (_, SetupEvent::WalletData(false)) => {
                self.stage = RestoreStage::Phrase;
                SetupAction::ReadPhrase
            },
            (_, SetupEvent::PhraseRead(line)) => {
                if let Err(e) = check_restore_phrase(line.as_str()) {
                    return SetupAction::Finish { close: false, result: Err(e.describe()) };
                }
                if let Err(e) = require_passphrase(
                    self.passphrase.as_str(),
                    text_of(&self.unsafe_override),
                ) {
                    return SetupAction::Finish { close: false, result: Err(e.describe()) };
                }
                self.phrase = String::from_str(trim(line.as_str()));
                self.stage = RestoreStage::VaultLookUp;
                SetupAction::LookUpVaultWallet { name: self.ows_wallet.clone() }
            },
            (_, SetupEvent::VaultWallet(found)) => {
                match prepare_restore(
                    self.data_dir.as_str(),
                    self.ows_wallet.as_str(),
                    self.passphrase.as_str(),
                    text_of(&self.unsafe_override),
                    None,
                    found,
                ) {
                    Err(e) => SetupAction::Finish { close: false, result: Err(e.describe()) },
                    Ok(st) => {
                        self.stage = RestoreStage::Importing(st);
                        SetupAction::ImportPhrase {
                            name: self.ows_wallet.clone(),
                            phrase: self.phrase.clone(),
                            passphrase: self.passphrase.clone(),
                        }
                    },
                }
            },
            (_, SetupEvent::Imported(Err(e))) => {
                SetupAction::Finish {
                    close: false,
                    result: Err(WalletError::StoreFailed(e).describe()),
                }
            },
            (RestoreStage::Importing(st), SetupEvent::Imported(Ok(()))) => {
                self.stage = RestoreStage::SavingPolicy(st);
                SetupAction::SavePolicy(default_policy())
            },
            (RestoreStage::SavingPolicy(st), SetupEvent::PolicySaved(Ok(()))) => {
                self.stage = RestoreStage::Params(st);
                SetupAction::EnsureParams
            },
            (RestoreStage::SavingPolicy(st), SetupEvent::PolicySaved(Err(e))) | (
                RestoreStage::Params(st),
                SetupEvent::ParamsReady(Err(e)),
            ) | (RestoreStage::Restoring(st), SetupEvent::Restored(Err(e))) => {
                self.stage = RestoreStage::RollingBack(WalletError::RestoreFailed(e).describe());
                SetupAction::Rollback(st)
            },
            (RestoreStage::Params(st), SetupEvent::ParamsReady(Ok(()))) => {
                self.stage = RestoreStage::Restoring(st);
                SetupAction::Restore { birthday: self.birthday, phrase: Some(self.phrase.clone()) }
            },
            (_, SetupEvent::Restored(Ok(()))) => {
                self.stage = RestoreStage::Addresses;
                SetupAction::ListAddresses
            },
            (RestoreStage::RollingBack(m), SetupEvent::RolledBack) => {
                SetupAction::Finish { close: false, result: Err(m) }
            },
            (_, SetupEvent::AddressesListed(listed)) => {
                SetupAction::Finish {
                    close: true,
                    result: Ok(
                        SetupOutput::Restored {
                            address: first_of(listed),
                            birthday: self.birthday,
                            data_dir: self.data_dir.clone(),
                            ows_wallet: self.ows_wallet.clone(),
                        },
                    ),
                }
            },
            _ => SetupAction::Finish { close: false, result: Err(String::new()) },
        }
    }
}

/// `wallet restore` scanning from `birthday`, into the vault wallet `ows_wallet` under the
/// vault `passphrase` (`unsafe_override` is the value of `ZUMBRA_UNSAFE_EMPTY_PASSPHRASE`, if
/// set); the first step is to create the data directory.
pub fn cmd_wallet_restore(
    cfg: &Config,
    birthday: u32,
    ows_wallet: String,
    passphrase: String,
    unsafe_override: Option<String>,
) -> (res: (WalletRestore, SetupAction))
    ensures
        res.0.stage() == RestoreStage::DataDir,
        res.0.target() == (cfg.data_dir, birthday, ows_wallet),
        res.0.passphrase_refused() == (passphrase@.len() == 0 && !(unsafe_override matches Some(v)
            && v@ == "1"@)),
        res.0.secrets() == (Seq::<char>::empty(), passphrase@, unsafe_override),
        res.1 == SetupAction::EnsureDataDir,
{
    (
        WalletRestore {
            stage: RestoreStage::DataDir,
            data_dir: cfg.data_dir.clone(),
            birthday,
            ows_wallet,
            passphrase,
            unsafe_override,
            phrase: String::new(),
        },
        SetupAction::EnsureDataDir,
    )
}

} // verus!
