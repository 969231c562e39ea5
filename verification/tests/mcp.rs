use zumbra::mcp::{
    classify_error, resolve_seed, validate_address, violation_code, ErrorCode, SeedPurpose, SeedSource,
    SigningSession, ViolationKind,
};

#[test]
fn replaced_proposal_cannot_be_confirmed_or_consumed() {
    let mut session = SigningSession::new(Some("dummy-test-secret".to_string()));
    let id_b = session.begin_review("b".into(), 10, 1, None);
    let result = session.take_reviewed("proposal-a", &None);
    assert_eq!(result.unwrap_err().code.as_str(), "INVALID_PROPOSAL");
    assert_eq!(session.reviewed().as_ref().unwrap().id, id_b);
    assert!(session.lock().is_ok());
    assert!(session.seed().is_none());
    assert!(session.reviewed().is_none());
}

#[test]
fn a_reviewed_send_is_confirmed_once_with_its_context() {
    let mut session = SigningSession::new(Some(7u8));
    let id = session.begin_review("addr".into(), 10, 1, Some("ctx".into()));
    assert_eq!(id.len(), 36);
    assert_eq!(session.take_reviewed(&id, &None).unwrap_err().message, "Proposal replaced or context changed. Review again.");
    let taken = session.take_reviewed(&id, &Some("ctx".into())).unwrap();
    assert_eq!((taken.address.as_str(), taken.amount, taken.fee), ("addr", 10, 1));
    assert_eq!(session.take_reviewed(&id, &Some("ctx".into())).unwrap_err().code, ErrorCode::InvalidProposal);
}

#[test]
fn a_new_proposal_replaces_the_reviewed_one() {
    let mut session = SigningSession::new(Some(1u8));
    let first = session.begin_review("a".into(), 1, 1, None);
    let second = session.begin_review("b".into(), 2, 1, None);
    assert_ne!(first, second);
    assert!(session.take_reviewed(&first, &None).is_err());
    session.clear_review();
    assert!(session.take_reviewed(&second, &None).is_err());
}

#[test]
fn a_locked_wallet_gives_out_no_seed() {
    let mut session = SigningSession::new(Some("seed".to_string()));
    assert_eq!(session.seed_for(SeedPurpose::Send).unwrap(), "seed");
    session.lock().unwrap();
    let r = session.seed_for(SeedPurpose::Send).unwrap_err();
    assert_eq!((r.code.as_str(), r.message.as_str()), ("WALLET_LOCKED", "Wallet is locked. Ask the operator to unlock."));
    assert_eq!(session.seed_for(SeedPurpose::Plan).unwrap_err().message, "Unlock the wallet to derive the SDK plan.");
    let again = session.lock().unwrap_err();
    assert_eq!((again.code, again.message.as_str()), (ErrorCode::WalletLocked, "Wallet is already locked."));
    let empty: SigningSession<String> = SigningSession::new(None);
    assert_eq!(empty.seed_for(SeedPurpose::Plan).unwrap_err().message, "No signing seed is available for plan derivation.");
    assert!(empty.seed_for(SeedPurpose::Send).unwrap_err().message.starts_with("No seed available."));
}

#[test]
fn errors_are_classified_by_their_message() {
    let cases = [
        ("APPROVAL_REQUIRED: no operator key", "APPROVAL_REQUIRED"),
        ("POLICY_EXCEEDED: amount 5000000 exceeds per-tx cap 1000000", "POLICY_EXCEEDED"),
        ("RATE_LIMITED: wait", "POLICY_EXCEEDED"),
        ("ADDRESS_NOT_ALLOWED: x", "ADDRESS_NOT_ALLOWED"),
        ("CONTEXT_REQUIRED", "CONTEXT_REQUIRED"),
        ("Insufficient balance", "INSUFFICIENT_FUNDS"),
        ("wallet has insufficient funds", "INSUFFICIENT_FUNDS"),
        ("No pending proposal", "INVALID_PROPOSAL"),
        ("Engine not initialized", "SYNC_REQUIRED"),
        ("wallet not synced", "SYNC_REQUIRED"),
        ("transport error: connection refused", "NETWORK_TIMEOUT"),
        ("request timeout", "NETWORK_TIMEOUT"),
        ("something else", "INTERNAL_ERROR"),
        ("", "INTERNAL_ERROR"),
        ("POLICY_EXCEEDED after APPROVAL_REQUIRED", "APPROVAL_REQUIRED"),
    ];
    for (msg, code) in cases {
        assert_eq!(classify_error(msg).as_str(), code, "{msg}");
    }
    assert_eq!(ErrorCode::Success.as_str(), "SUCCESS");
}

#[test]
fn policy_violations_have_their_codes() {
    assert_eq!(violation_code(&ViolationKind::AddressNotAllowed), ErrorCode::AddressNotAllowed);
    assert_eq!(violation_code(&ViolationKind::ContextRequired), ErrorCode::ContextRequired);
    assert_eq!(violation_code(&ViolationKind::ApprovalRequired), ErrorCode::ApprovalRequired);
    assert_eq!(violation_code(&ViolationKind::Exceeded), ErrorCode::PolicyExceeded);
}

#[test]
fn seed_sources_are_labelled() {
    assert_eq!(SeedSource::OwsVault.label(), "ows-vault");
    assert_eq!(SeedSource::Nowhere.label(), "none");
}

#[test]
fn addresses_are_validated_and_typed() {
    let cases = [
        ("t1Hsc1LR8yKnbbe3twRp88p6vFfC5t7DLbs", "transparent"),
        ("tm9iMLAuYMzJ6jtFLcA7rzUmfreGuKvr7Ma", "transparent"),
        ("zs1qqqqqqqqqqqqqqqqqqqqqqqqqqqqqqqqqqqqqqqqqqqqqqqqqqqqqqqqqqqqqqqqqqqqqpq6d8g", "sapling"),
        ("ztestsapling1qqqqqqqqqqqqqqqqqqqqqqqqqqqqqqqqqqqqqqqqqqqqqqqqqqqqqqqqqqqqqqqqqqqqqfhgwqu", "sapling"),
        ("u1qpatys4zruk99pg59gcscrt7y6akvl9vrhcfyhm9yxvxz7h87q6n8cgrzzpe9zru68uq39uhmlpp5uefxu0su5uqyqfe5zp3tycn0ecl", "unified"),
    ];
    for (addr, kind) in cases {
        let v = validate_address(addr.to_string());
        assert!(v.valid, "{addr}");
        assert_eq!(v.address, addr);
        assert_eq!(v.address_type.as_deref(), Some(kind));
    }
    let bad = validate_address("not-an-address".to_string());
    assert!(!bad.valid);
    assert_eq!(bad.address_type, None);
    assert_eq!(bad.address, "not-an-address");
}

#[test]
fn only_a_mnemonic_export_becomes_the_server_seed() {
    let phrase = "word ".repeat(23) + "word";
    assert_eq!(resolve_seed(Ok(phrase.clone())), (Some(phrase), SeedSource::OwsVault));
    assert_eq!(resolve_seed(Ok("{\"key\":\"00\"}".into())), (None, SeedSource::Nowhere));
    assert_eq!(resolve_seed(Ok("deadbeef".into())), (None, SeedSource::Nowhere));
    assert_eq!(resolve_seed(Err("no such wallet".into())), (None, SeedSource::Nowhere));
    assert_eq!(SeedSource::Nowhere.label(), "none");
}

#[test]
fn a_lock_outlasts_every_later_call() {
    let mut session = SigningSession::new(Some("seed".to_string()));
    session.begin_review("utest1a".into(), 1, 1, None);
    assert!(session.lock().is_ok());
    let id = session.begin_review("utest1b".into(), 2, 1, None);
    session.clear_review();
    let _ = session.take_reviewed(&id, &None);
    let again = session.lock().unwrap_err();
    assert_eq!((again.code, again.message.as_str()), (ErrorCode::WalletLocked, "Wallet is already locked."));
    assert!(session.is_locked() && session.seed().is_none() && session.reviewed().is_none());
    assert_eq!(session.seed_for(SeedPurpose::Send).unwrap_err().code, ErrorCode::WalletLocked);
    assert_eq!(session.seed_for(SeedPurpose::Plan).unwrap_err().message, "Unlock the wallet to derive the SDK plan.");
}

#[test]
fn a_reviewed_send_gets_a_fresh_safe_id() {
    let mut session = SigningSession::new(Some(0u8));
    let a = session.begin_review("utest1a".into(), 1, 1, None);
    let b = session.begin_review("utest1a".into(), 1, 1, None);
    assert_eq!(a.len(), 36);
    assert!(zumbra::approval::safe_id(&a).is_ok());
    assert_ne!(a, b);
}
