use zumbra::approval::{
    approval_file, approve, key_path, load_proposal, message, operator_init,
    operator_key_exists, operator_key_from_secret, proposal_file, pub_path, record_proposal,
    safe_id, settle, verify_and_consume, ApprovalError, ApprovalRecord, FileRead, OperatorError,
    Proposal, Verdict,
};

fn proposal() -> Proposal {
    Proposal { id: "p-1".into(), address: "utest1abc".into(), amount: 5_000_000, fee: 15_000 }
}

/// A key pair as `operator init` makes it, and the text its `operator.pub` holds.
fn operator(passphrase: &str) -> ([u8; 32], FileRead<String>) {
    let k = operator_init("/tmp/zumbra-test", false, passphrase).unwrap();
    (k.secret, FileRead::Read(k.public_hex))
}

/// Signs `p` as `zumbra approve` does once the sealed key is open.
fn approved(secret: &[u8; 32], p: &Proposal, ttl: u64, now: u64) -> ApprovalRecord {
    approve(true, Ok(secret.to_vec()), p, ttl, now).unwrap()
}

#[test]
fn operator_init_creates_a_key_once_and_only_the_passphrase_opens_it() {
    assert!(!operator_key_exists(false, false));
    // `operator init` asks the host to seal the secret into operator.key and write the public
    // half to operator.pub: both halves of this key pair
    let (mut init, _) = zumbra::operator::cmd_operator_init(&zumbra::config::resolve_config(false, None, Some("/tmp/zumbra-init".into()), false, None));
    init.step(zumbra::operator::OperatorEvent::DataDirReady(Ok(())));
    init.step(zumbra::operator::OperatorEvent::PassphraseRead(Ok("op-pass".into())));
    init.step(zumbra::operator::OperatorEvent::PassphraseRead(Ok("op-pass".into())));
    let k = match init.step(zumbra::operator::OperatorEvent::KeyFiles { public: false, secret: false }) {
        zumbra::operator::OperatorAction::SealAndStore { key, passphrase } => {
            assert_eq!(passphrase, "op-pass");
            assert_eq!(key.public_hex, operator_key_from_secret(key.secret).public_hex);
            key
        }
        other => panic!("init must seal and store the key, got {other:?}"),
    };
    // with either half on disk, a second init must not replace the key
    assert!(operator_init("/tmp/zumbra-init", true, "op-pass").is_err(), "a second init must not replace the key");
    let (mut again, _) = zumbra::operator::cmd_operator_init(&zumbra::config::resolve_config(false, None, Some("/tmp/zumbra-init".into()), false, None));
    again.step(zumbra::operator::OperatorEvent::DataDirReady(Ok(())));
    again.step(zumbra::operator::OperatorEvent::PassphraseRead(Ok("op-pass".into())));
    again.step(zumbra::operator::OperatorEvent::PassphraseRead(Ok("op-pass".into())));
    assert!(matches!(
        again.step(zumbra::operator::OperatorEvent::KeyFiles { public: true, secret: true }),
        zumbra::operator::OperatorAction::Finish(Err(_))
    ));
    // a wrong passphrase does not open the sealed key, and nothing is signed
    assert!(approve(true, Err(OperatorError::WrongPassphrase), &proposal(), 600, 1_000).is_err(), "wrong passphrase must not sign");
    assert!(approve(true, Ok(k.secret.to_vec()), &proposal(), 600, 1_000).is_ok());
}

#[test]
fn a_valid_approval_is_accepted_once_then_gone() {
    let (secret, public) = operator("op-pass");
    let record = approved(&secret, &proposal(), 600, 1_000);
    let verdict = verify_and_consume(&public, &proposal(), &FileRead::Read(record), 1_010);
    assert!(verdict.removes_file());
    assert!(settle(verdict, Ok(())).is_ok());
    // the file is gone now
    let again = verify_and_consume(&public, &proposal(), &FileRead::Absent, 1_020);
    assert!(matches!(settle(again, Ok(())), Err(ApprovalError::NoApproval(_))), "an approval must be single-use");
}

#[test]
fn an_approval_binds_every_field_of_the_proposal() {
    let (secret, public) = operator("op-pass");
    let record = FileRead::Read(approved(&secret, &proposal(), 600, 1_000));
    let mut more = proposal();
    more.amount += 1;
    let v = verify_and_consume(&public, &more, &record, 1_010);
    assert!(!v.removes_file());
    assert!(matches!(v, Verdict::Refuse(ApprovalError::Mismatch)));
    let mut elsewhere = proposal();
    elsewhere.address = "utest1xyz".into();
    assert!(matches!(verify_and_consume(&public, &elsewhere, &record, 1_010), Verdict::Refuse(ApprovalError::Mismatch)));
    // the original is still there and still valid after the two mismatches
    assert!(matches!(verify_and_consume(&public, &proposal(), &record, 1_010), Verdict::Accept));
}

#[test]
fn an_approval_expires() {
    let (secret, public) = operator("op-pass");
    let record = FileRead::Read(approved(&secret, &proposal(), 600, 1_000));
    let v = verify_and_consume(&public, &proposal(), &record, 1_601);
    assert!(v.removes_file());
    assert!(matches!(v, Verdict::Refuse(ApprovalError::Expired(_))));
}

#[test]
fn an_approval_signed_by_another_key_is_rejected() {
    let (_ours, public) = operator("op-pass");
    let (theirs, _) = operator("other-pass");
    let record = FileRead::Read(approved(&theirs, &proposal(), 600, 1_000));
    assert!(matches!(verify_and_consume(&public, &proposal(), &record, 1_010), Verdict::Refuse(ApprovalError::BadSignature)));
}

#[test]
fn without_an_operator_key_nothing_can_be_approved() {
    let v = verify_and_consume(&FileRead::Absent, &proposal(), &FileRead::Absent, 1_010);
    assert!(matches!(v, Verdict::Refuse(ApprovalError::NoOperatorKey)));
    assert!(approve(false, Err(OperatorError::NoOperatorKey), &proposal(), 600, 1_000).is_err());
}

#[test]
fn a_recorded_proposal_can_be_read_back_for_the_operator_to_see() {
    let path = record_proposal("/tmp/record", &proposal()).unwrap();
    assert_eq!(path, "/tmp/record/proposals/p-1.json");
    let p = load_proposal("p-1", FileRead::Read(proposal())).unwrap();
    assert_eq!((p.address.as_str(), p.amount, p.fee), ("utest1abc", 5_000_000, 15_000));
    assert!(load_proposal("p-2", FileRead::Failed("No such file or directory (os error 2)".into())).is_err());
}

#[test]
fn approval_record_carries_the_proposal_and_a_saturated_expiry() {
    let (secret, _) = operator("op-pass");
    let r = approved(&secret, &proposal(), u64::MAX, 1_000);
    assert_eq!(r.id, "p-1");
    assert_eq!(r.address, "utest1abc");
    assert_eq!((r.amount, r.fee, r.expires_at), (5_000_000, 15_000, u64::MAX));
    assert_eq!(r.signature.len(), 128);
    assert!(r.signature.chars().all(|c| c.is_ascii_hexdigit() && !c.is_ascii_uppercase()));
    let r = approved(&secret, &proposal(), 600, 1_000);
    assert_eq!(r.expires_at, 1_600);
}

#[test]
fn approval_accepted_exactly_at_expiry() {
    let (secret, public) = operator("op-pass");
    let record = FileRead::Read(approved(&secret, &proposal(), 600, 1_000));
    assert!(matches!(verify_and_consume(&public, &proposal(), &record, 1_600), Verdict::Accept));
}

#[test]
fn the_public_key_is_the_hex_of_the_ed25519_verifying_key() {
    // RFC 8032, test 1
    let secret: [u8; 32] = [
        0x9d, 0x61, 0xb1, 0x9d, 0xef, 0xfd, 0x5a, 0x60, 0xba, 0x84, 0x4a, 0xf4, 0x92, 0xec, 0x2c, 0xc4,
        0x44, 0x49, 0xc5, 0x69, 0x7b, 0x32, 0x69, 0x19, 0x70, 0x3b, 0xac, 0x03, 0x1c, 0xae, 0x7f, 0x60,
    ];
    let k = operator_key_from_secret(secret);
    assert_eq!(k.public_hex, "d75a980182b10ab7d54bfed3c964073a0ee172f3daa62325af021a68f707511a");
    assert_eq!(k.secret, secret);
}

#[test]
fn a_public_key_file_with_surrounding_whitespace_still_verifies() {
    let (secret, public) = operator("op-pass");
    let padded = match public {
        FileRead::Read(t) => FileRead::Read(format!("  {t}\n")),
        _ => unreachable!(),
    };
    let record = FileRead::Read(approved(&secret, &proposal(), 600, 1_000));
    assert!(matches!(verify_and_consume(&padded, &proposal(), &record, 1_010), Verdict::Accept));
}

#[test]
fn unreadable_public_keys_are_reported() {
    let p = proposal();
    let short = FileRead::Read("abcd".to_string());
    match verify_and_consume(&short, &p, &FileRead::Absent, 0) {
        Verdict::Refuse(ApprovalError::Unreadable(m)) => assert_eq!(m, "operator.pub is not 32 bytes"),
        other => panic!("unexpected {other:?}"),
    }
    let not_hex = FileRead::Read("zz".to_string());
    assert!(matches!(verify_and_consume(&not_hex, &p, &FileRead::Absent, 0), Verdict::Refuse(ApprovalError::Unreadable(_))));
    let failed = FileRead::Failed("permission denied".to_string());
    assert_eq!(verify_and_consume(&failed, &p, &FileRead::Absent, 0), Verdict::Refuse(ApprovalError::Unreadable("permission denied".into())));
}

#[test]
fn unreadable_approvals_and_bad_ids_are_reported() {
    let (secret, public) = operator("op-pass");
    let p = proposal();
    assert_eq!(
        verify_and_consume(&public, &p, &FileRead::Malformed("expected value".into()), 0),
        Verdict::Refuse(ApprovalError::Unreadable("expected value".into()))
    );
    let mut bad = approved(&secret, &p, 600, 1_000);
    bad.signature = "00".into();
    assert!(matches!(verify_and_consume(&public, &p, &FileRead::Read(bad), 1_010), Verdict::Refuse(ApprovalError::Unreadable(_))));
    let mut evil = p.clone();
    evil.id = "../etc/passwd".into();
    match verify_and_consume(&public, &evil, &FileRead::Absent, 0) {
        Verdict::Refuse(ApprovalError::Unreadable(m)) => assert_eq!(m, "proposal id must be 1 to 64 characters of [A-Za-z0-9-]"),
        other => panic!("unexpected {other:?}"),
    }
}

#[test]
fn a_failed_removal_does_not_let_an_approval_through() {
    assert_eq!(settle(Verdict::Accept, Err("read-only file system".into())), Err(ApprovalError::Unreadable("read-only file system".into())));
    assert_eq!(settle(Verdict::Refuse(ApprovalError::Mismatch), Ok(())), Err(ApprovalError::Mismatch));
}

#[test]
fn proposal_ids_are_checked() {
    assert_eq!(safe_id("p-1"), Ok("p-1"));
    assert!(safe_id(&"a".repeat(64)).is_ok());
    assert_eq!(safe_id(&"a".repeat(65)), Err(OperatorError::InvalidProposalId));
    assert_eq!(safe_id(""), Err(OperatorError::InvalidProposalId));
    assert_eq!(safe_id("a/b"), Err(OperatorError::InvalidProposalId));
    assert_eq!(safe_id("é"), Err(OperatorError::InvalidProposalId));
    assert_eq!(approval_file("/d", "x.y"), Err(OperatorError::InvalidProposalId));
    assert_eq!(approval_file("/d/", "abc").unwrap(), "/d/approvals/abc.json");
    assert_eq!(proposal_file("d", "abc").unwrap(), "d/proposals/abc.json");
    assert_eq!(pub_path(""), "operator.pub");
    assert_eq!(key_path("/data"), "/data/operator.key");
}

#[test]
fn the_signed_message_lists_every_field() {
    let m = message(&proposal(), 1_600);
    assert_eq!(String::from_utf8(m).unwrap(), "zumbra-approval-v1\np-1\nutest1abc\n5000000\n15000\n1600\n");
    let zero = Proposal { id: "z".into(), address: "ü".into(), amount: 0, fee: u64::MAX };
    assert_eq!(String::from_utf8(message(&zero, 0)).unwrap(), format!("zumbra-approval-v1\nz\nü\n0\n{}\n0\n", u64::MAX));
}

#[test]
fn operator_errors_read_as_before() {
    assert_eq!(
        operator_init("/srv/w", true, "x").unwrap_err().describe(),
        "an operator key already exists in /srv/w; remove operator.key and operator.pub by hand to replace it"
    );
    assert_eq!(operator_init("/srv/w", false, "").unwrap_err(), OperatorError::EmptyPassphrase);
    assert_eq!(OperatorError::EmptyPassphrase.describe(), "the operator passphrase must not be empty");
    assert_eq!(
        approve(true, Ok(vec![1, 2, 3]), &proposal(), 600, 1_000).unwrap_err().describe(),
        "operator.key is corrupt"
    );
    assert_eq!(
        OperatorError::NoOperatorKey.describe(),
        "APPROVAL_REQUIRED: no operator key; the operator must run `zumbra operator init` first"
    );
    assert_eq!(OperatorError::WrongPassphrase.describe(), "wrong operator passphrase");
    assert_eq!(
        load_proposal("p-2", FileRead::Failed("gone".into())).unwrap_err().describe(),
        "no recorded proposal p-2: gone"
    );
    assert_eq!(
        approve(true, Ok(vec![0; 32]), &Proposal { id: "".into(), ..proposal() }, 1, 1).unwrap_err().describe(),
        "proposal id must be 1 to 64 characters of [A-Za-z0-9-]"
    );
}

#[test]
fn approval_errors_read_as_before() {
    assert_eq!(
        ApprovalError::NoApproval("p-9".into()).describe(),
        "APPROVAL_REQUIRED: no operator approval for this proposal; the operator runs `zumbra approve p-9` at their terminal"
    );
    assert_eq!(
        ApprovalError::Expired("p-9".into()).describe(),
        "APPROVAL_REQUIRED: the operator approval has expired; the operator runs `zumbra approve p-9` again"
    );
    assert_eq!(ApprovalError::Mismatch.describe(), "APPROVAL_REQUIRED: the operator approval is for a different proposal");
    assert_eq!(
        ApprovalError::BadSignature.describe(),
        "APPROVAL_REQUIRED: the operator approval is not signed by this wallet's operator key"
    );
    assert_eq!(ApprovalError::Unreadable("x".into()).describe(), "APPROVAL_REQUIRED: operator approval unreadable: x");
}

#[test]
fn different_proposals_sign_different_messages() {
    let p = proposal();
    let mut q = proposal();
    q.address = "utest1abc\n5000000".into();
    q.amount = 15_000;
    q.fee = 1_600;
    // the same text cannot be produced by different fields
    assert_ne!(message(&p, 1_600), message(&q, 1_600));
    assert_ne!(message(&p, 1_600), message(&p, 1_601));
}

#[test]
fn a_clock_before_the_epoch_reads_as_zero() {
    assert_eq!(zumbra::approval::secs_or_zero(Ok(1_700_000_000)), 1_700_000_000);
    assert_eq!(zumbra::approval::secs_or_zero(Err(())), 0);
    assert!(zumbra::approval::now_unix() > 1_600_000_000);
}
