use zumbra::config::{resolve_config, Config};
use zumbra::setup::{
    cmd_wallet_init, cmd_wallet_restore, open_or_create_vault_seed, SetupAction, SetupEvent,
    SetupOutput, VaultAction, VaultEvent,
};
use zumbra::wallet::{default_policy, WalletError};

const PHRASE: &str = "abandon abandon abandon abandon abandon abandon abandon abandon abandon abandon abandon abandon abandon abandon abandon abandon abandon abandon abandon abandon abandon abandon abandon art";

fn cfg() -> Config {
    resolve_config(true, None, Some("/srv/zumbra".into()), false, None)
}

/// A vault held in memory: the names of its wallets and whether each holds a mnemonic.
struct Vault {
    wallets: Vec<(String, String)>,
}

impl Vault {
    /// Runs the vault seed for `name` against this vault.
    fn open_or_create(&mut self, name: &str, passphrase: &str) -> Result<bool, WalletError> {
        let (mut seed, mut action) = open_or_create_vault_seed(name, passphrase, None);
        loop {
            action = match action {
                VaultAction::Finish(r) => return r,
                VaultAction::LookUp { name } => {
                    seed.step(VaultEvent::Found(self.wallets.iter().any(|(n, _)| *n == name)))
                }
                VaultAction::Export { name } => {
                    let secret = self.wallets.iter().find(|(n, _)| *n == name).map(|(_, s)| s.clone());
                    seed.step(VaultEvent::Exported(secret.ok_or_else(|| "wallet not found".to_string())))
                }
                VaultAction::Create { name, words } => {
                    assert_eq!(words, 24);
                    self.wallets.push((name, PHRASE.to_string()));
                    seed.step(VaultEvent::Created(Ok(())))
                }
            };
        }
    }
}

#[test]
fn init_reports_whether_it_created_the_vault_seed() {
    let mut vault = Vault { wallets: Vec::new() };
    let first = vault.open_or_create("reuse", "pass");
    assert_eq!(first, Ok(true), "first call must create the vault seed");
    assert_eq!(vault.wallets.len(), 1);
    let second = vault.open_or_create("reuse", "pass");
    assert_eq!(second, Ok(false), "second call must report reuse");
    assert_eq!(vault.wallets.len(), 1);
}

#[test]
fn a_private_key_vault_wallet_is_not_a_seed() {
    let mut vault = Vault { wallets: vec![("keys".into(), "{\"private_key\":\"00\"}".into())] };
    let err = vault.open_or_create("keys", "pass").unwrap_err();
    assert_eq!(err, WalletError::PrivateKeyWallet("keys".into()));
    assert!(err.describe().contains("is a private-key wallet, not mnemonic"));
}

#[test]
fn an_empty_passphrase_touches_no_vault() {
    let (_, action) = open_or_create_vault_seed("w", "", None);
    assert_eq!(action, VaultAction::Finish(Err(WalletError::EmptyPassphrase)));
    let (_, action) = open_or_create_vault_seed("w", "", Some("1"));
    assert_eq!(action, VaultAction::LookUp { name: "w".into() });
}

#[test]
fn vault_failures_say_which_step_failed() {
    let (mut seed, _) = open_or_create_vault_seed("w", "p", None);
    seed.step(VaultEvent::Found(false));
    match seed.step(VaultEvent::Created(Err("disk full".into()))) {
        VaultAction::Finish(Err(e)) => assert_eq!(e.describe(), "Failed to create OWS wallet: disk full"),
        other => panic!("unexpected {other:?}"),
    }
    let (mut seed, _) = open_or_create_vault_seed("w", "p", None);
    seed.step(VaultEvent::Found(true));
    match seed.step(VaultEvent::Exported(Err("bad passphrase".into()))) {
        VaultAction::Finish(Err(e)) => assert_eq!(e.describe(), "Failed to export OWS wallet: bad passphrase"),
        other => panic!("unexpected {other:?}"),
    }
}

#[test]
fn init_shows_the_seed_only_when_it_created_it() {
    for created in [true, false] {
        let (mut init, first) = cmd_wallet_init(&cfg(), "default".into());
        assert_eq!(first, SetupAction::EnsureDataDir);
        assert_eq!(init.step(SetupEvent::DataDirReady(Ok(()))), SetupAction::EnsureParams);
        assert_eq!(init.step(SetupEvent::ParamsReady(Ok(()))), SetupAction::CheckWalletData);
        assert_eq!(init.step(SetupEvent::WalletData(false)), SetupAction::OpenVaultSeed { ows_wallet: "default".into() });
        assert_eq!(init.step(SetupEvent::VaultSeed(Ok(created))), SetupAction::FetchHeight);
        assert_eq!(init.step(SetupEvent::Height(Ok(3_000_000))), SetupAction::Restore { birthday: 3_000_000, phrase: None });
        assert_eq!(init.step(SetupEvent::Restored(Ok(()))), SetupAction::SavePolicy(default_policy()));
        assert_eq!(init.step(SetupEvent::PolicySaved(Ok(()))), SetupAction::ListAddresses);
        assert_eq!(
            init.step(SetupEvent::AddressesListed(Ok(vec!["utest1first".into(), "utest1second".into()]))),
            SetupAction::Finish {
                close: true,
                result: Ok(SetupOutput::Initialized {
                    seed_shown: created,
                    birthday: 3_000_000,
                    address: "utest1first".into(),
                    data_dir: "/srv/zumbra".into(),
                    ows_wallet: "default".into(),
                    policy: default_policy(),
                }),
            }
        );
    }
}

#[test]
fn init_refuses_a_data_directory_that_holds_a_wallet() {
    let (mut init, _) = cmd_wallet_init(&cfg(), "default".into());
    init.step(SetupEvent::DataDirReady(Ok(())));
    init.step(SetupEvent::ParamsReady(Ok(())));
    assert_eq!(
        init.step(SetupEvent::WalletData(true)),
        SetupAction::Finish {
            close: false,
            result: Err("Wallet already exists in /srv/zumbra. Use `wallet delete --confirm` first.".into()),
        }
    );
}

#[test]
fn init_keeps_the_low_bits_of_a_huge_height_and_reports_no_address_when_none_is_listed() {
    let (mut init, _) = cmd_wallet_init(&cfg(), "w".into());
    init.step(SetupEvent::DataDirReady(Ok(())));
    init.step(SetupEvent::ParamsReady(Ok(())));
    init.step(SetupEvent::WalletData(false));
    init.step(SetupEvent::VaultSeed(Ok(true)));
    assert_eq!(init.step(SetupEvent::Height(Ok((1u64 << 32) + 7))), SetupAction::Restore { birthday: 7, phrase: None });
    init.step(SetupEvent::Restored(Ok(())));
    init.step(SetupEvent::PolicySaved(Ok(())));
    match init.step(SetupEvent::AddressesListed(Err("engine closed".into()))) {
        SetupAction::Finish { result: Ok(SetupOutput::Initialized { address, .. }), .. } => assert_eq!(address, ""),
        other => panic!("unexpected {other:?}"),
    }
}

fn restore_until_import(passphrase: &str) -> zumbra::setup::WalletRestore {
    let (mut r, first) = cmd_wallet_restore(&cfg(), 419_200, "restored".into(), passphrase.into(), None);
    assert_eq!(first, SetupAction::EnsureDataDir);
    assert_eq!(r.step(SetupEvent::DataDirReady(Ok(()))), SetupAction::CheckWalletData);
    assert_eq!(r.step(SetupEvent::WalletData(false)), SetupAction::ReadPhrase);
    assert_eq!(r.step(SetupEvent::PhraseRead(format!("{PHRASE}\n"))), SetupAction::LookUpVaultWallet { name: "restored".into() });
    // the phrase read, trimmed, is what goes into the vault, sealed with the passphrase
    assert_eq!(
        r.step(SetupEvent::VaultWallet(false)),
        SetupAction::ImportPhrase { name: "restored".into(), phrase: PHRASE.into(), passphrase: passphrase.into() }
    );
    r
}

#[test]
fn a_restore_stores_the_phrase_then_the_default_policy_then_restores() {
    let mut r = restore_until_import("pass");
    assert_eq!(r.step(SetupEvent::Imported(Ok(()))), SetupAction::SavePolicy(default_policy()));
    assert_eq!(r.step(SetupEvent::PolicySaved(Ok(()))), SetupAction::EnsureParams);
    assert_eq!(r.step(SetupEvent::ParamsReady(Ok(()))), SetupAction::Restore { birthday: 419_200, phrase: Some(PHRASE.into()) });
    assert_eq!(r.step(SetupEvent::Restored(Ok(()))), SetupAction::ListAddresses);
    assert_eq!(
        r.step(SetupEvent::AddressesListed(Ok(vec!["utest1r".into()]))),
        SetupAction::Finish {
            close: true,
            result: Ok(SetupOutput::Restored {
                address: "utest1r".into(),
                birthday: 419_200,
                data_dir: "/srv/zumbra".into(),
                ows_wallet: "restored".into(),
            }),
        }
    );
}

#[test]
fn a_failed_restore_leaves_no_vault_entry_and_no_policy_behind() {
    let mut r = restore_until_import("pass");
    r.step(SetupEvent::Imported(Ok(())));
    r.step(SetupEvent::PolicySaved(Ok(())));
    r.step(SetupEvent::ParamsReady(Ok(())));
    match r.step(SetupEvent::Restored(Err("connection refused".into()))) {
        SetupAction::Rollback(staging) => {
            assert_eq!(staging.ows_wallet(), "restored", "vault entry survived the rollback");
            assert_eq!(staging.policy_path(), "/srv/zumbra/policy.toml", "policy.toml survived the rollback");
            assert_eq!(staging.vault_path(), &None);
        }
        other => panic!("unexpected {other:?}"),
    }
    assert_eq!(
        r.step(SetupEvent::RolledBack),
        SetupAction::Finish {
            close: false,
            result: Err("Restore failed and nothing was kept: connection refused. Fix the cause (usually the server) and run restore again.".into()),
        }
    );
}

#[test]
fn a_restore_needs_24_words_a_passphrase_and_a_free_vault_name() {
    let (mut r, _) = cmd_wallet_restore(&cfg(), 1, "w".into(), "pass".into(), None);
    r.step(SetupEvent::DataDirReady(Ok(())));
    r.step(SetupEvent::WalletData(false));
    match r.step(SetupEvent::PhraseRead("one two three".into())) {
        SetupAction::Finish { close: false, result: Err(m) } => assert!(m.starts_with("Expected a 24-word seed phrase on stdin, got 3 words.")),
        other => panic!("unexpected {other:?}"),
    }

    let (mut r, _) = cmd_wallet_restore(&cfg(), 1, "w".into(), "".into(), None);
    r.step(SetupEvent::DataDirReady(Ok(())));
    r.step(SetupEvent::WalletData(false));
    match r.step(SetupEvent::PhraseRead(PHRASE.into())) {
        SetupAction::Finish { result: Err(m), .. } => assert!(m.starts_with("OWS_PASSPHRASE is empty.")),
        other => panic!("unexpected {other:?}"),
    }

    let (mut r, _) = cmd_wallet_restore(&cfg(), 1, "dup".into(), "pass".into(), None);
    r.step(SetupEvent::DataDirReady(Ok(())));
    r.step(SetupEvent::WalletData(false));
    r.step(SetupEvent::PhraseRead(PHRASE.into()));
    match r.step(SetupEvent::VaultWallet(true)) {
        SetupAction::Finish { result: Err(m), .. } => assert!(m.starts_with("OWS wallet 'dup' already exists.")),
        other => panic!("unexpected {other:?}"),
    }
}

#[test]
fn a_vault_import_failure_is_reported_without_a_rollback() {
    let mut r = restore_until_import("pass");
    assert_eq!(
        r.step(SetupEvent::Imported(Err("invalid mnemonic".into()))),
        SetupAction::Finish { close: false, result: Err("Failed to store the seed in the OWS vault: invalid mnemonic".into()) }
    );
}

#[test]
fn a_failed_policy_save_after_the_import_rolls_back() {
    let mut r = restore_until_import("pass");
    assert_eq!(r.step(SetupEvent::Imported(Ok(()))), SetupAction::SavePolicy(default_policy()));
    match r.step(SetupEvent::PolicySaved(Err("read-only file system".into()))) {
        SetupAction::Rollback(staging) => {
            assert_eq!(staging.ows_wallet(), "restored");
            assert_eq!(staging.policy_path(), "/srv/zumbra/policy.toml");
        }
        other => panic!("unexpected {other:?}"),
    }
    assert_eq!(
        r.step(SetupEvent::RolledBack),
        SetupAction::Finish {
            close: false,
            result: Err("Restore failed and nothing was kept: read-only file system. Fix the cause (usually the server) and run restore again.".into()),
        }
    );
}
