use zumbra::approval::{settle, verify_and_consume, FileRead, OperatorError, Proposal};
use zumbra::config::{resolve_config, Config};
use zumbra::operator::{cmd_approve, cmd_operator_init, OperatorAction, OperatorEvent, OperatorOutput};

fn cfg() -> Config {
    resolve_config(false, None, Some("/srv/op".into()), false, None)
}

fn error(action: OperatorAction) -> String {
    match action {
        OperatorAction::Finish(Err(m)) => m,
        other => panic!("expected an error, got {other:?}"),
    }
}

fn proposal() -> Proposal {
    Proposal { id: "p-1".into(), address: "utest1abc".into(), amount: 5_000_000, fee: 15_000 }
}

#[test]
fn operator_init_asks_twice_and_stores_a_fresh_key() {
    let (mut init, first) = cmd_operator_init(&cfg());
    assert_eq!(first, OperatorAction::EnsureDataDir);
    assert_eq!(
        init.step(OperatorEvent::DataDirReady(Ok(()))),
        OperatorAction::ReadPassphrase {
            prompt: "Choose the operator passphrase (typed here, never stored, never put in an env var):".into()
        }
    );
    assert_eq!(
        init.step(OperatorEvent::PassphraseRead(Ok("op-pass".into()))),
        OperatorAction::ReadPassphrase { prompt: "Type it again:".into() }
    );
    assert_eq!(init.step(OperatorEvent::PassphraseRead(Ok("op-pass".into()))), OperatorAction::CheckKeyFiles);
    match init.step(OperatorEvent::KeyFiles { public: false, secret: false }) {
        OperatorAction::SealAndStore { key, passphrase } => {
            assert_eq!(passphrase, "op-pass");
            assert_eq!(key.public_hex.len(), 64);
            assert!(key.public_hex.chars().all(|c| c.is_ascii_hexdigit() && !c.is_ascii_uppercase()));
        }
        other => panic!("unexpected {other:?}"),
    }
    assert_eq!(init.step(OperatorEvent::Stored(Ok(()))), OperatorAction::Finish(Ok(OperatorOutput::KeyCreated)));
}

#[test]
fn operator_init_refuses_different_passphrases_an_existing_key_and_an_empty_passphrase() {
    let (mut init, _) = cmd_operator_init(&cfg());
    init.step(OperatorEvent::DataDirReady(Ok(())));
    init.step(OperatorEvent::PassphraseRead(Ok("one".into())));
    assert_eq!(error(init.step(OperatorEvent::PassphraseRead(Ok("two".into())))), "the two passphrases differ; nothing was created");

    for (public, secret) in [(true, false), (false, true), (true, true)] {
        let (mut init, _) = cmd_operator_init(&cfg());
        init.step(OperatorEvent::DataDirReady(Ok(())));
        init.step(OperatorEvent::PassphraseRead(Ok("p".into())));
        init.step(OperatorEvent::PassphraseRead(Ok("p".into())));
        assert_eq!(
            error(init.step(OperatorEvent::KeyFiles { public, secret })),
            "an operator key already exists in /srv/op; remove operator.key and operator.pub by hand to replace it"
        );
    }

    let (mut init, _) = cmd_operator_init(&cfg());
    init.step(OperatorEvent::DataDirReady(Ok(())));
    init.step(OperatorEvent::PassphraseRead(Ok("".into())));
    init.step(OperatorEvent::PassphraseRead(Ok("".into())));
    assert_eq!(error(init.step(OperatorEvent::KeyFiles { public: false, secret: false })), "the operator passphrase must not be empty");
}

#[test]
fn approve_signs_what_it_showed_and_the_wallet_accepts_it() {
    // the operator's key, as operator init made it
    let (mut init, _) = cmd_operator_init(&cfg());
    init.step(OperatorEvent::DataDirReady(Ok(())));
    init.step(OperatorEvent::PassphraseRead(Ok("op-pass".into())));
    init.step(OperatorEvent::PassphraseRead(Ok("op-pass".into())));
    let key = match init.step(OperatorEvent::KeyFiles { public: false, secret: false }) {
        OperatorAction::SealAndStore { key, .. } => key,
        other => panic!("unexpected {other:?}"),
    };

    let (mut a, first) = cmd_approve(&cfg(), "p-1".into(), 10);
    assert_eq!(first, OperatorAction::LoadProposal { id: "p-1".into() });
    assert_eq!(
        a.step(OperatorEvent::ProposalRead(FileRead::Read(proposal()))),
        OperatorAction::ConfirmWithOperator {
            proposal: proposal(),
            ttl_minutes: 10,
            prompt: "Operator passphrase to sign it (Enter with nothing to abort):".into(),
        }
    );
    assert_eq!(a.step(OperatorEvent::PassphraseRead(Ok("op-pass".into()))), OperatorAction::ReadClock);
    assert_eq!(a.step(OperatorEvent::Clock(1_000)), OperatorAction::Unseal { passphrase: "op-pass".into() });
    let record = match a.step(OperatorEvent::Unsealed { key_present: true, unsealed: Ok(key.secret.to_vec()) }) {
        OperatorAction::WriteApproval(r) => r,
        other => panic!("unexpected {other:?}"),
    };
    assert_eq!((record.id.as_str(), record.expires_at), ("p-1", 1_600));
    assert_eq!(
        a.step(OperatorEvent::Written(Ok(()))),
        OperatorAction::Finish(Ok(OperatorOutput::Approved { proposal_id: "p-1".into(), expires_at: 1_600 }))
    );
    let public = FileRead::Read(key.public_hex);
    assert!(settle(verify_and_consume(&public, &proposal(), &FileRead::Read(record), 1_600), Ok(())).is_ok());
}

#[test]
fn approve_aborts_on_an_empty_passphrase_and_reports_key_problems() {
    let (mut a, _) = cmd_approve(&cfg(), "p-1".into(), 10);
    a.step(OperatorEvent::ProposalRead(FileRead::Read(proposal())));
    assert_eq!(error(a.step(OperatorEvent::PassphraseRead(Ok("".into())))), "aborted; nothing was approved");

    let cases = [
        (false, Ok(vec![0u8; 32]), "APPROVAL_REQUIRED: no operator key; the operator must run `zumbra operator init` first"),
        (true, Err(OperatorError::WrongPassphrase), "wrong operator passphrase"),
        (true, Ok(vec![0u8; 31]), "operator.key is corrupt"),
    ];
    for (key_present, unsealed, expected) in cases {
        let (mut a, _) = cmd_approve(&cfg(), "p-1".into(), 10);
        a.step(OperatorEvent::ProposalRead(FileRead::Read(proposal())));
        a.step(OperatorEvent::PassphraseRead(Ok("x".into())));
        a.step(OperatorEvent::Clock(5));
        assert_eq!(error(a.step(OperatorEvent::Unsealed { key_present, unsealed })), expected);
    }
}

#[test]
fn approve_needs_a_recorded_proposal_with_a_safe_id() {
    let (mut a, _) = cmd_approve(&cfg(), "p-2".into(), 10);
    assert_eq!(error(a.step(OperatorEvent::ProposalRead(FileRead::Absent))), "no recorded proposal p-2: not found");
    let (mut a, _) = cmd_approve(&cfg(), "../etc".into(), 10);
    assert_eq!(error(a.step(OperatorEvent::ProposalRead(FileRead::Absent))), "proposal id must be 1 to 64 characters of [A-Za-z0-9-]");
}
