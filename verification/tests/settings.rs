use zumbra::config::{default_server, expected_network, network_name, resolve_config, server_config, Network};
use zumbra::wallet::{
    check_restore_phrase, check_vault_export, cmd_ironwood_confirm, cmd_ironwood_pause,
    cmd_ironwood_resume, default_policy, is_mnemonic_export, prepare_restore, require_passphrase, WalletError,
};

const PHRASE: &str = "abandon abandon abandon abandon abandon abandon abandon abandon abandon abandon abandon abandon abandon abandon abandon abandon abandon abandon abandon abandon abandon abandon abandon art";

#[test]
fn config_defaults_follow_the_network() {
    let cfg = resolve_config(true, None, None, false, Some("/home/op".into()));
    assert_eq!(cfg.network, Network::TestNetwork);
    assert_eq!(cfg.server_url, "https://testnet.zec.rocks:443");
    assert_eq!(cfg.data_dir, "/home/op/.zumbra/testnet");
    assert_eq!(expected_network(&cfg), "zcash:testnet");
    let cfg = resolve_config(false, Some("https://example:9067".into()), Some("/data".into()), true, None);
    assert_eq!(cfg.network, Network::MainNetwork);
    assert_eq!(cfg.server_url, "https://example:9067");
    assert_eq!(cfg.data_dir, "/data");
    assert!(cfg.human);
    assert_eq!(expected_network(&cfg), "zcash:mainnet");
    assert_eq!(network_name(Network::MainNetwork), "mainnet");
    assert_eq!(default_server(Network::MainNetwork), "https://zec.rocks:443");
}

#[test]
fn zumbra_testnet_env_selects_testnet() {
    let cfg = server_config(Some("1".into()), None, None, Some("/root".into()));
    assert_eq!(cfg.network, Network::TestNetwork);
    assert_eq!(cfg.data_dir, "/root/.zumbra/testnet");
    let cfg = server_config(Some("true".into()), None, Some("/d".into()), None);
    assert_eq!(cfg.network, Network::MainNetwork);
    assert_eq!(cfg.data_dir, "/d");
    assert!(!cfg.human);
}

#[test]
fn prepare_restore_puts_the_seed_in_the_vault_and_writes_the_default_policy() {
    let staging = prepare_restore("/tmp/restore/data", "restore-test", "pass", None, Some("/tmp/restore/vault".into()), false)
        .expect("prepare_restore");
    assert_eq!(staging.ows_wallet(), "restore-test");
    assert_eq!(staging.policy_path(), "/tmp/restore/data/policy.toml");
    assert_eq!(staging.vault_path().as_deref(), Some("/tmp/restore/vault"));
    let expected = default_policy();
    assert!(expected.max_per_tx > 0 && expected.daily_limit > 0, "default policy must cap");
    assert_eq!((expected.max_per_tx, expected.daily_limit, expected.approval_threshold), (1_000_000, 10_000_000, 5_000_000));
    assert!(!expected.require_context_id && expected.min_spend_interval_ms == 0 && expected.allowlist.is_empty());
}

#[test]
fn prepare_restore_refuses_to_overwrite_an_existing_vault_wallet() {
    let err = prepare_restore("/tmp/dup/data", "dup", "pass", None, None, true).unwrap_err();
    assert!(err.describe().contains("dup"), "error should name the wallet: {err:?}");
    assert_eq!(err, WalletError::WalletExists("dup".into()));
}

#[test]
fn init_and_restore_refuse_an_empty_passphrase() {
    let err = prepare_restore("/tmp/e", "empty", "", None, None, false).unwrap_err().describe();
    assert!(err.to_lowercase().contains("passphrase"), "restore accepted an empty passphrase: {err}");
    let err = require_passphrase("", None).unwrap_err().describe();
    assert!(err.to_lowercase().contains("passphrase"), "init accepted an empty passphrase: {err}");
    assert_eq!(require_passphrase("", Some("0")), Err(WalletError::EmptyPassphrase));
    assert!(require_passphrase("", Some("1")).is_ok());
    assert!(require_passphrase("pass", None).is_ok());
}

#[test]
fn restore_takes_exactly_24_words() {
    assert!(check_restore_phrase(PHRASE).is_ok());
    assert!(check_restore_phrase(&format!("  {PHRASE}\n")).is_ok());
    let short = check_restore_phrase("one two\tthree").unwrap_err();
    assert_eq!(short, WalletError::WrongWordCount(3));
    assert_eq!(
        short.describe(),
        "Expected a 24-word seed phrase on stdin, got 3 words. Usage: zumbra wallet restore --birthday <height> < seed.txt"
    );
    assert_eq!(check_restore_phrase(""), Err(WalletError::WrongWordCount(0)));
}

#[test]
fn only_a_mnemonic_export_is_a_seed() {
    assert!(is_mnemonic_export(PHRASE));
    assert!(!is_mnemonic_export("deadbeef"));
    assert!(!is_mnemonic_export("{\"key\": 1}"));
    assert_eq!(check_vault_export("w", PHRASE.to_string()), Ok(PHRASE.to_string()));
    assert_eq!(
        check_vault_export("w", "abcdef".into()).unwrap_err().describe(),
        "OWS wallet 'w' is a private-key wallet, not mnemonic. Zcash requires a mnemonic wallet for ZIP-32 key derivation."
    );
}

#[test]
fn ironwood_entry_points_are_unavailable() {
    let cfg = resolve_config(true, None, Some("/data".into()), false, None);
    assert!(cmd_ironwood_confirm(&cfg, true).unwrap_err().describe().contains("no legacy JSON schedule was created"));
    assert!(cmd_ironwood_pause(&cfg).unwrap_err().describe().ends_with("Nothing was paused."));
    assert!(cmd_ironwood_resume(&cfg).unwrap_err().describe().ends_with("Nothing was resumed."));
}

use zumbra::wallet::{pending_proposal, seed_for_confirm, GuardAction, GuardEvent, PendingProposal};

#[test]
fn confirm_checks_the_real_amount_against_policy_before_reading_the_seed() {
    let pending = PendingProposal {
        address: "utest1placeholder".into(),
        amount: 0,
        memo: None,
        is_max: true,
        context_id: None,
    };
    let (mut guard, first) = seed_for_confirm(&pending, 5_000);
    assert_eq!(first, GuardAction::LoadPolicy);
    assert_eq!(guard.step(GuardEvent::PolicyLoaded(Ok(()))), GuardAction::ReadDailySpent);
    let check = guard.step(GuardEvent::DailySpent(Ok(0)));
    assert_eq!(
        check,
        GuardAction::CheckProposal { address: "utest1placeholder".into(), amount: 5_000, context_id: None, daily_spent: 0 }
    );
    let violation = "POLICY_EXCEEDED: amount 5000 exceeds per-tx cap 1000".to_string();
    match guard.step(GuardEvent::Verdict(Err(violation.clone()))) {
        GuardAction::LogRefusal { amount, error, .. } => {
            assert_eq!(amount, 5_000);
            assert!(error.contains("POLICY_EXCEEDED"));
        }
        other => panic!("the refusal was not written to the audit log: {other:?}"),
    }
    match guard.step(GuardEvent::Logged) {
        GuardAction::Fail(err) => {
            assert!(err.contains("POLICY_EXCEEDED"), "expected the policy violation, got: {err}");
            assert!(!err.contains("OWS"), "the seed was read before the policy ran: {err}");
        }
        other => panic!("unexpected {other:?}"),
    }
}

#[test]
fn confirm_refuses_when_the_policy_file_is_corrupt_or_missing() {
    let pending = PendingProposal { address: "utest1x".into(), amount: 1, memo: None, is_max: false, context_id: None };
    for why in ["policy.toml not found", "invalid type: string \"x\", expected u64"] {
        let (mut guard, _) = seed_for_confirm(&pending, 1);
        match guard.step(GuardEvent::PolicyLoaded(Err(why.to_string()))) {
            GuardAction::Fail(err) => {
                assert!(err.to_lowercase().contains("policy"), "missing policy should refuse, got: {err}");
                assert!(!err.contains("OWS"), "seed was read before the policy was checked: {err}");
                assert_eq!(err, format!("Spending policy unavailable, refusing to spend: {why}"));
            }
            other => panic!("unexpected {other:?}"),
        }
    }
}

#[test]
fn a_clean_verdict_lets_the_seed_be_read() {
    let pending = pending_proposal("utest1x".into(), 700, None, false, Some("ctx".into()), 650);
    assert_eq!(pending.amount, 700);
    let (mut guard, _) = seed_for_confirm(&pending, 650);
    guard.step(GuardEvent::PolicyLoaded(Ok(())));
    match guard.step(GuardEvent::DailySpent(Ok(10))) {
        GuardAction::CheckProposal { amount, context_id, daily_spent, .. } => {
            assert_eq!((amount, context_id.as_deref(), daily_spent), (650, Some("ctx"), 10));
        }
        other => panic!("unexpected {other:?}"),
    }
    assert_eq!(guard.step(GuardEvent::Verdict(Ok(()))), GuardAction::ReadSeed);
    let (mut guard, _) = seed_for_confirm(&pending, 650);
    guard.step(GuardEvent::PolicyLoaded(Ok(())));
    assert_eq!(guard.step(GuardEvent::DailySpent(Err("audit log locked".into()))), GuardAction::Fail("audit log locked".into()));
    let max = pending_proposal("a".into(), 0, None, true, None, 42);
    assert_eq!(max.amount, 42);
}
