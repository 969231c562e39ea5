use zumbra::mcp::{ErrorCode, SigningSession, ViolationKind};
use zumbra::tools::{
    confirm_accounted, unavailable_reply, AccountAction, AccountEvent, AuditAction, ConfirmFlow, PayFlow, ProposeFlow, ToolAction, ToolEvent, ToolReply,
    UnavailableTool,
};

fn reply(action: ToolAction) -> ToolReply {
    match action {
        ToolAction::Reply(r) => r,
        other => panic!("expected a reply, got {other:?}"),
    }
}

#[test]
fn a_proposal_is_checked_by_policy_then_reviewed_then_confirmed_once() {
    let mut session = SigningSession::new(Some("seed".to_string()));
    let (mut propose, first) = ProposeFlow::start(&mut session, "utest1abc".into(), 1_000, None, Some("c".into()));
    assert_eq!(first, ToolAction::LoadPolicy);
    assert_eq!(propose.step(&mut session, ToolEvent::PolicyLoaded(Ok(()))), ToolAction::ReadDailySpent);
    assert_eq!(
        propose.step(&mut session, ToolEvent::DailySpent(Ok(0))),
        ToolAction::CheckProposal { address: "utest1abc".into(), amount: 1_000, context_id: Some("c".into()), daily_spent: 0 }
    );
    assert_eq!(
        propose.step(&mut session, ToolEvent::Verdict(Ok(()))),
        ToolAction::Propose { address: "utest1abc".into(), amount: 1_000, memo: None }
    );
    match propose.step(&mut session, ToolEvent::Proposed(Ok((1_000, 10)))) {
        ToolAction::Log { entry, record_confirm } => {
            assert_eq!(entry.action.as_str(), "propose_send");
            assert_eq!((entry.amount, entry.fee, entry.error), (Some(1_000), Some(10), None));
            assert!(!record_confirm);
        }
        other => panic!("unexpected {other:?}"),
    }
    let id = match reply(propose.step(&mut session, ToolEvent::Logged)) {
        ToolReply::Proposed { proposal_id, send_amount, fee, total, .. } => {
            assert_eq!((send_amount, fee, total), (1_000, 10, 1_010));
            proposal_id
        }
        other => panic!("unexpected {other:?}"),
    };

    let (mut confirm, first) = ConfirmFlow::start(&session, id.clone(), Some("c".into()));
    assert_eq!(first, ToolAction::LoadPolicy);
    assert_eq!(confirm.step(&mut session, ToolEvent::PolicyLoaded(Ok(()))), ToolAction::CheckRateLimit);
    match confirm.step(&mut session, ToolEvent::RateChecked(Ok(()))) {
        ToolAction::Broadcast { send } => assert_eq!((send.amount, send.fee, send.id), (1_000, 10, id.clone())),
        other => panic!("unexpected {other:?}"),
    }
    assert!(session.reviewed().is_none());
    match confirm.step(&mut session, ToolEvent::Broadcasted(Ok("txid-1".into()))) {
        ToolAction::Log { entry, record_confirm } => {
            assert_eq!(entry.action, AuditAction::ConfirmSend);
            assert_eq!(entry.txid.as_deref(), Some("txid-1"));
            assert!(record_confirm);
        }
        other => panic!("unexpected {other:?}"),
    }
    assert_eq!(reply(confirm.step(&mut session, ToolEvent::Logged)), ToolReply::Confirmed { txid: "txid-1".into() });

    // the same id cannot be confirmed again
    let (mut again, _) = ConfirmFlow::start(&session, id, Some("c".into()));
    again.step(&mut session, ToolEvent::PolicyLoaded(Ok(())));
    match reply(again.step(&mut session, ToolEvent::RateChecked(Ok(())))) {
        ToolReply::Refused(r) => assert_eq!(r.code, ErrorCode::InvalidProposal),
        other => panic!("unexpected {other:?}"),
    }
}

#[test]
fn a_policy_refusal_is_logged_with_its_code_and_nothing_is_proposed() {
    let mut session = SigningSession::new(Some(0u8));
    let (mut flow, _) = ProposeFlow::start(&mut session, "t1x".into(), 5_000_000, None, None);
    flow.step(&mut session, ToolEvent::PolicyLoaded(Ok(())));
    flow.step(&mut session, ToolEvent::DailySpent(Ok(0)));
    let v = "APPROVAL_REQUIRED: 5000000 is above the approval threshold".to_string();
    match flow.step(&mut session, ToolEvent::Verdict(Err((ViolationKind::ApprovalRequired, v.clone())))) {
        ToolAction::Log { entry, .. } => assert_eq!(entry.error, Some(v.clone())),
        other => panic!("unexpected {other:?}"),
    }
    match reply(flow.step(&mut session, ToolEvent::Logged)) {
        ToolReply::Refused(r) => assert_eq!((r.code, r.message), (ErrorCode::ApprovalRequired, v)),
        other => panic!("unexpected {other:?}"),
    }
    assert!(session.reviewed().is_none());
}

#[test]
fn a_missing_policy_refuses_before_anything_else() {
    let mut session = SigningSession::new(Some(0u8));
    let (mut flow, _) = ProposeFlow::start(&mut session, "t1x".into(), 1, None, None);
    match reply(flow.step(&mut session, ToolEvent::PolicyLoaded(Err("policy.toml: not found".into())))) {
        ToolReply::Refused(r) => assert_eq!(r.code, ErrorCode::InternalError),
        other => panic!("unexpected {other:?}"),
    }
    let (mut confirm, _) = ConfirmFlow::start(&session, "x".into(), None);
    match reply(confirm.step(&mut session, ToolEvent::PolicyLoaded(Err("POLICY_EXCEEDED: corrupt".into())))) {
        ToolReply::Refused(r) => assert_eq!(r.code, ErrorCode::PolicyExceeded),
        other => panic!("unexpected {other:?}"),
    }
}

#[test]
fn a_locked_wallet_confirms_nothing() {
    let mut session = SigningSession::new(Some(0u8));
    session.begin_review("a".into(), 1, 1, None);
    session.lock().unwrap();
    let (_, action) = ConfirmFlow::start(&session, "any".into(), None);
    match reply(action) {
        ToolReply::Refused(r) => assert_eq!(r.code.as_str(), "WALLET_LOCKED"),
        other => panic!("unexpected {other:?}"),
    }
}

#[test]
fn a_rate_limited_confirmation_is_logged_and_refused() {
    let mut session = SigningSession::new(Some(0u8));
    let id = session.begin_review("a".into(), 1, 1, None);
    let (mut flow, _) = ConfirmFlow::start(&session, id, None);
    flow.step(&mut session, ToolEvent::PolicyLoaded(Ok(())));
    match flow.step(&mut session, ToolEvent::RateChecked(Err("RATE_LIMITED: wait 1000 ms".into()))) {
        ToolAction::Log { entry, record_confirm } => {
            assert_eq!((entry.address, entry.error.as_deref()), (None, Some("RATE_LIMITED: wait 1000 ms")));
            assert!(!record_confirm);
        }
        other => panic!("unexpected {other:?}"),
    }
    match reply(flow.step(&mut session, ToolEvent::Logged)) {
        ToolReply::Refused(r) => assert_eq!(r.code, ErrorCode::PolicyExceeded),
        other => panic!("unexpected {other:?}"),
    }
    // the reviewed send is still there
    assert!(session.reviewed().is_some());
}

#[test]
fn a_failed_broadcast_is_logged_and_classified() {
    let mut session = SigningSession::new(Some(0u8));
    let id = session.begin_review("a".into(), 1, 1, None);
    let (mut flow, _) = ConfirmFlow::start(&session, id, None);
    flow.step(&mut session, ToolEvent::PolicyLoaded(Ok(())));
    flow.step(&mut session, ToolEvent::RateChecked(Ok(())));
    match flow.step(&mut session, ToolEvent::Broadcasted(Err("Insufficient balance".into()))) {
        ToolAction::Log { entry, .. } => assert_eq!(entry.error.as_deref(), Some("Insufficient balance")),
        other => panic!("unexpected {other:?}"),
    }
    match reply(flow.step(&mut session, ToolEvent::Logged)) {
        ToolReply::Refused(r) => assert_eq!(r.code, ErrorCode::InsufficientFunds),
        other => panic!("unexpected {other:?}"),
    }
}

#[test]
fn a_paywall_is_paid_after_policy_and_rate_limit_and_then_signed() {
    let mut session = SigningSession::new(Some(0u8));
    session.begin_review("earlier".into(), 1, 1, None);
    let (mut flow, first) = PayFlow::start(&mut session, Some("ctx".into()));
    assert_eq!(first, ToolAction::ParsePaywall);
    assert!(session.reviewed().is_none());
    assert_eq!(flow.step(ToolEvent::PaywallParsed(Ok("utest1pay".into()))), ToolAction::PaywallAmount);
    assert_eq!(flow.step(ToolEvent::PaywallAmount(Ok(25_000))), ToolAction::LoadPolicy);
    assert_eq!(flow.step(ToolEvent::PolicyLoaded(Ok(()))), ToolAction::ReadDailySpent);
    assert_eq!(
        flow.step(ToolEvent::DailySpent(Ok(7))),
        ToolAction::CheckProposal { address: "utest1pay".into(), amount: 25_000, context_id: Some("ctx".into()), daily_spent: 7 }
    );
    assert_eq!(flow.step(ToolEvent::Verdict(Ok(()))), ToolAction::CheckRateLimit);
    assert_eq!(
        flow.step(ToolEvent::RateChecked(Ok(()))),
        ToolAction::Propose { address: "utest1pay".into(), amount: 25_000, memo: None }
    );
    assert_eq!(
        flow.step(ToolEvent::Proposed(Ok((25_000, 10_000)))),
        ToolAction::BroadcastPayment { address: "utest1pay".into(), amount: 25_000, fee: 10_000, context_id: Some("ctx".into()) }
    );
    match flow.step(ToolEvent::Broadcasted(Ok("tx-9".into()))) {
        ToolAction::Log { entry, record_confirm } => {
            assert_eq!(entry.action.as_str(), "x402_pay");
            assert_eq!((entry.amount, entry.fee, entry.txid.as_deref(), entry.error), (Some(25_000), Some(10_000), Some("tx-9"), None));
            assert!(record_confirm);
        }
        other => panic!("unexpected {other:?}"),
    }
    assert_eq!(flow.step(ToolEvent::Logged), ToolAction::SignPayment { txid: "tx-9".into() });
    assert_eq!(
        reply(flow.step(ToolEvent::PaymentSigned("sig".into()))),
        ToolReply::Paid { txid: "tx-9".into(), payment_signature: "sig".into(), amount: 25_000, fee: 10_000, pay_to: "utest1pay".into() }
    );
}

#[test]
fn a_bad_paywall_body_is_refused_as_an_invalid_proposal() {
    let mut session = SigningSession::new(Some(0u8));
    let (mut flow, _) = PayFlow::start(&mut session, None);
    match reply(flow.step(ToolEvent::PaywallParsed(Err("no accepts".into())))) {
        ToolReply::Refused(r) => {
            assert_eq!(r.code, ErrorCode::InvalidProposal);
            assert_eq!(r.message, "Invalid x402 body: no accepts");
        }
        other => panic!("unexpected {other:?}"),
    }
    let (mut flow, _) = PayFlow::start(&mut session, None);
    flow.step(ToolEvent::PaywallParsed(Ok("t1x".into())));
    match reply(flow.step(ToolEvent::PaywallAmount(Err("amount is not a number".into())))) {
        ToolReply::Refused(r) => assert_eq!((r.code, r.message.as_str()), (ErrorCode::InvalidProposal, "amount is not a number")),
        other => panic!("unexpected {other:?}"),
    }
}

#[test]
fn a_paywall_over_the_policy_is_logged_and_refused_with_its_code() {
    let mut session = SigningSession::new(Some(0u8));
    let (mut flow, _) = PayFlow::start(&mut session, None);
    flow.step(ToolEvent::PaywallParsed(Ok("t1x".into())));
    flow.step(ToolEvent::PaywallAmount(Ok(9)));
    flow.step(ToolEvent::PolicyLoaded(Ok(())));
    flow.step(ToolEvent::DailySpent(Ok(0)));
    match flow.step(ToolEvent::Verdict(Err((ViolationKind::AddressNotAllowed, "not allowed".into())))) {
        ToolAction::Log { entry, record_confirm } => {
            assert_eq!((entry.action, entry.amount, entry.error.as_deref()), (AuditAction::X402Pay, Some(9), Some("not allowed")));
            assert!(!record_confirm);
        }
        other => panic!("unexpected {other:?}"),
    }
    match reply(flow.step(ToolEvent::Logged)) {
        ToolReply::Refused(r) => assert_eq!(r.code, ErrorCode::AddressNotAllowed),
        other => panic!("unexpected {other:?}"),
    }
}

#[test]
fn a_locked_wallet_pays_nothing() {
    let mut session: SigningSession<u8> = SigningSession::new(None);
    let (_, action) = PayFlow::start(&mut session, None);
    match reply(action) {
        ToolReply::Refused(r) => assert_eq!(r.code, ErrorCode::WalletLocked),
        other => panic!("unexpected {other:?}"),
    }
}

#[test]
fn unavailable_tools_do_nothing_and_say_so() {
    for (tool, tail) in [
        (UnavailableTool::IronwoodConfirm, "Nothing was signed or scheduled."),
        (UnavailableTool::IronwoodPause, "Nothing was paused."),
        (UnavailableTool::IronwoodResume, "Nothing was resumed."),
        (UnavailableTool::VoteEligibility, "supports orchard 0.15."),
    ] {
        match unavailable_reply(tool) {
            ToolReply::Refused(r) => {
                assert_eq!(r.code, ErrorCode::InternalError);
                // the code a failure with this message is classified as
                assert_eq!(zumbra::mcp::classify_error(&r.message), ErrorCode::InternalError);
                assert!(r.message.ends_with(tail));
            }
            other => panic!("unexpected {other:?}"),
        }
    }
}

#[test]
fn an_accounted_broadcast_reserves_before_it_signs_and_never_retries() {
    let session = SigningSession::new(Some(0u8));
    let (mut b, first) = confirm_accounted(&session, "utest1a".into(), 500, 10, Some("c".into()));
    assert_eq!(first, AccountAction::LoadPolicy);
    assert_eq!(b.step(AccountEvent::PolicyLoaded(Ok(()))), AccountAction::CheckRateLimit);
    assert_eq!(
        b.step(AccountEvent::RateChecked(Ok(()))),
        AccountAction::Reserve { address: "utest1a".into(), amount: 500, fee: 10, context_id: Some("c".into()) }
    );
    assert_eq!(b.step(AccountEvent::Reserved(Ok(()))), AccountAction::Broadcast);
    assert_eq!(b.step(AccountEvent::Broadcasted(Ok("tx".into()))), AccountAction::Settle { txid: "tx".into() });
    assert_eq!(b.step(AccountEvent::Settled(Ok(()))), AccountAction::Finish(Ok("tx".into())));

    let (mut b, _) = confirm_accounted(&session, "utest1a".into(), 500, 10, None);
    b.step(AccountEvent::PolicyLoaded(Ok(())));
    b.step(AccountEvent::RateChecked(Ok(())));
    b.step(AccountEvent::Reserved(Ok(())));
    assert_eq!(b.step(AccountEvent::Broadcasted(Err("timeout".into()))), AccountAction::Finish(Err("timeout".into())));

    let (mut b, _) = confirm_accounted(&session, "utest1a".into(), 500, 10, None);
    b.step(AccountEvent::PolicyLoaded(Ok(())));
    assert_eq!(b.step(AccountEvent::RateChecked(Err("RATE_LIMITED".into()))), AccountAction::Finish(Err("RATE_LIMITED".into())));

    let mut locked = SigningSession::new(Some(0u8));
    locked.lock().unwrap();
    let (_, first) = confirm_accounted(&locked, "utest1a".into(), 500, 10, None);
    assert_eq!(first, AccountAction::Finish(Err("WALLET_LOCKED".into())));
}
