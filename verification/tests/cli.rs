use zumbra::config::{resolve_config, Config};
use zumbra::send::{
    cmd_consolidate, cmd_send_confirm, cmd_send_propose, cmd_x402_pay, cmd_x402_propose, CliAction,
    CliEvent, CliOutput,
};
use zumbra::tools::{AuditAction, AuditEntry};
use zumbra::wallet::PendingProposal;

fn testnet() -> Config {
    resolve_config(true, None, Some("/data".into()), false, None)
}

fn log_entry(action: CliAction) -> (AuditEntry, bool) {
    match action {
        CliAction::Log { entry, record_confirm } => (entry, record_confirm),
        other => panic!("expected a log entry, got {other:?}"),
    }
}

fn failure(action: CliAction) -> (bool, String) {
    match action {
        CliAction::Finish { close, result: Err(m) } => (close, m),
        other => panic!("expected a failure, got {other:?}"),
    }
}

#[test]
fn a_send_proposal_is_judged_before_the_engine_and_saved_with_the_asked_amount() {
    let (mut p, first) = cmd_send_propose(&testnet(), "utest1to".into(), 5_000, false, Some("hi".into()), Some("ctx".into()), false);
    assert_eq!(first, CliAction::SyncIfNeeded);
    assert_eq!(p.step(CliEvent::Synced(Ok(()))), CliAction::LoadPolicy);
    assert_eq!(p.step(CliEvent::PolicyLoaded(Ok(()))), CliAction::ReadDailySpent);
    assert_eq!(
        p.step(CliEvent::DailySpent(Ok(0))),
        CliAction::CheckProposal { address: "utest1to".into(), amount: 5_000, context_id: Some("ctx".into()), daily_spent: 0 }
    );
    assert_eq!(p.step(CliEvent::Verdict(Ok(()))), CliAction::OpenWallet);
    assert_eq!(
        p.step(CliEvent::Opened(Ok(()))),
        CliAction::Propose { address: "utest1to".into(), amount: 5_000, memo: Some("hi".into()), is_max: false, priority: false }
    );
    assert_eq!(
        p.step(CliEvent::Proposed(Ok((5_000, 15_000)))),
        CliAction::SavePending(PendingProposal {
            address: "utest1to".into(),
            amount: 5_000,
            memo: Some("hi".into()),
            is_max: false,
            context_id: Some("ctx".into()),
        })
    );
    let (entry, record) = log_entry(p.step(CliEvent::PendingSaved(Ok(()))));
    assert_eq!(entry.action, AuditAction::ProposeSend);
    assert_eq!((entry.amount, entry.fee, entry.error), (Some(5_000), Some(15_000), None));
    assert!(!record);
    assert_eq!(
        p.step(CliEvent::Logged),
        CliAction::Finish {
            close: true,
            result: Ok(CliOutput::Proposed { address: "utest1to".into(), send_amount: 5_000, fee: 15_000, total: 20_000 }),
        }
    );
}

#[test]
fn a_max_proposal_skips_the_amount_check_and_records_the_engine_amount() {
    let (mut p, _) = cmd_send_propose(&testnet(), "utest1to".into(), 0, true, None, None, true);
    p.step(CliEvent::Synced(Ok(())));
    assert_eq!(p.step(CliEvent::PolicyLoaded(Ok(()))), CliAction::OpenWallet);
    assert_eq!(
        p.step(CliEvent::Opened(Ok(()))),
        CliAction::Propose { address: "utest1to".into(), amount: 0, memo: None, is_max: true, priority: true }
    );
    match p.step(CliEvent::Proposed(Ok((987_000, 10_000)))) {
        CliAction::SavePending(pending) => assert_eq!((pending.amount, pending.is_max), (987_000, true)),
        other => panic!("unexpected {other:?}"),
    }
}

#[test]
fn a_policy_refusal_of_a_proposal_is_logged_and_nothing_is_proposed() {
    let (mut p, _) = cmd_send_propose(&testnet(), "t1x".into(), 9_000_000, false, None, None, false);
    p.step(CliEvent::Synced(Ok(())));
    p.step(CliEvent::PolicyLoaded(Ok(())));
    p.step(CliEvent::DailySpent(Ok(0)));
    let v = "POLICY_EXCEEDED: 9000000 is above the per-transaction limit".to_string();
    let (entry, _) = log_entry(p.step(CliEvent::Verdict(Err(v.clone()))));
    assert_eq!((entry.action, entry.amount, entry.fee, entry.error.clone()), (AuditAction::ProposeSend, Some(9_000_000), None, Some(v.clone())));
    assert_eq!(failure(p.step(CliEvent::Logged)), (false, v));
}

#[test]
fn a_missing_policy_refuses_a_proposal() {
    let (mut p, _) = cmd_send_propose(&testnet(), "t1x".into(), 1, false, None, None, false);
    p.step(CliEvent::Synced(Ok(())));
    let (close, m) = failure(p.step(CliEvent::PolicyLoaded(Err("policy.toml not found".into()))));
    assert!(!close);
    assert_eq!(m, "Spending policy unavailable, refusing to spend: policy.toml not found");
}

#[test]
fn an_x402_proposal_reads_the_body_for_the_wallet_network() {
    let (mut p, first) = cmd_x402_propose(&testnet(), None, Some("c".into()));
    assert_eq!(first, CliAction::ReadStdin);
    assert_eq!(
        p.step(CliEvent::Piped("  {\"x\":1}\n".into())),
        CliAction::ReadPaywall { body: "{\"x\":1}".into(), network: "zcash:testnet".into() }
    );
    assert_eq!(p.step(CliEvent::PaywallRead(Ok(("utest1pay".into(), 700)))), CliAction::SyncIfNeeded);
    p.step(CliEvent::Synced(Ok(())));
    p.step(CliEvent::PolicyLoaded(Ok(())));
    assert_eq!(
        p.step(CliEvent::DailySpent(Ok(3))),
        CliAction::CheckProposal { address: "utest1pay".into(), amount: 700, context_id: Some("c".into()), daily_spent: 3 }
    );

    let (mut empty, _) = cmd_x402_propose(&testnet(), None, None);
    assert_eq!(
        failure(empty.step(CliEvent::Piped(" \n".into()))).1,
        "No 402 body provided. Pass --body '<JSON>' or pipe via stdin."
    );

    let mainnet = resolve_config(false, None, Some("/data".into()), false, None);
    let (_, first) = cmd_x402_propose(&mainnet, Some("{}".into()), None);
    assert_eq!(first, CliAction::ReadPaywall { body: "{}".into(), network: "zcash:mainnet".into() });
}

fn pending() -> PendingProposal {
    PendingProposal { address: "utest1dest".into(), amount: 1_000, memo: None, is_max: false, context_id: Some("ctx".into()) }
}

#[test]
fn a_confirmation_passes_the_rate_limit_and_the_guard_before_it_signs() {
    let (mut c, first) = cmd_send_confirm(&testnet());
    assert_eq!(first, CliAction::EnsureParams);
    assert_eq!(c.step(CliEvent::ParamsReady(Ok(()))), CliAction::SyncIfNeeded);
    assert_eq!(c.step(CliEvent::Synced(Ok(()))), CliAction::LoadPending);
    assert_eq!(c.step(CliEvent::PendingLoaded(Ok(pending()))), CliAction::LoadPolicy);
    assert_eq!(c.step(CliEvent::PolicyLoaded(Ok(()))), CliAction::CheckRateLimit);
    assert_eq!(c.step(CliEvent::RateChecked(Ok(()))), CliAction::OpenWallet);
    assert_eq!(
        c.step(CliEvent::Opened(Ok(()))),
        CliAction::Propose { address: "utest1dest".into(), amount: 1_000, memo: None, is_max: false, priority: false }
    );
    assert_eq!(
        c.step(CliEvent::Proposed(Ok((1_000, 10_000)))),
        CliAction::Guard { pending: pending(), send_amount: 1_000, fee: 10_000 }
    );
    assert_eq!(c.step(CliEvent::Guarded(Ok(()))), CliAction::ConfirmSend);
    let (entry, record) = log_entry(c.step(CliEvent::Broadcasted(Ok("tx-1".into()))));
    assert_eq!((entry.action, entry.txid.as_deref(), entry.amount, entry.fee), (AuditAction::ConfirmSend, Some("tx-1"), Some(1_000), Some(10_000)));
    assert!(record);
    assert_eq!(c.step(CliEvent::Logged), CliAction::DeletePending);
    assert_eq!(
        c.step(CliEvent::PendingDeleted),
        CliAction::Finish {
            close: true,
            result: Ok(CliOutput::Sent { txid: "tx-1".into(), amount: 1_000, fee: 10_000, address: "utest1dest".into() }),
        }
    );
}

#[test]
fn a_rate_limited_confirmation_is_logged_with_the_pending_amount() {
    let (mut c, _) = cmd_send_confirm(&testnet());
    c.step(CliEvent::ParamsReady(Ok(())));
    c.step(CliEvent::Synced(Ok(())));
    c.step(CliEvent::PendingLoaded(Ok(pending())));
    c.step(CliEvent::PolicyLoaded(Ok(())));
    let (entry, record) = log_entry(c.step(CliEvent::RateChecked(Err("RATE_LIMITED: wait 500 ms".into()))));
    assert_eq!((entry.address.as_deref(), entry.amount, entry.fee), (Some("utest1dest"), Some(1_000), None));
    assert!(!record);
    assert_eq!(failure(c.step(CliEvent::Logged)), (false, "RATE_LIMITED: wait 500 ms".to_string()));
}

#[test]
fn a_guard_refusal_closes_the_wallet_and_signs_nothing() {
    let (mut c, _) = cmd_send_confirm(&testnet());
    c.step(CliEvent::ParamsReady(Ok(())));
    c.step(CliEvent::Synced(Ok(())));
    c.step(CliEvent::PendingLoaded(Ok(pending())));
    c.step(CliEvent::PolicyLoaded(Ok(())));
    c.step(CliEvent::RateChecked(Ok(())));
    c.step(CliEvent::Opened(Ok(())));
    c.step(CliEvent::Proposed(Ok((1_000, 10_000))));
    assert_eq!(failure(c.step(CliEvent::Guarded(Err("POLICY_EXCEEDED: daily".into())))), (true, "POLICY_EXCEEDED: daily".to_string()));
}

#[test]
fn a_failed_broadcast_is_logged_and_keeps_the_pending_proposal() {
    let (mut c, _) = cmd_send_confirm(&testnet());
    c.step(CliEvent::ParamsReady(Ok(())));
    c.step(CliEvent::Synced(Ok(())));
    c.step(CliEvent::PendingLoaded(Ok(pending())));
    c.step(CliEvent::PolicyLoaded(Ok(())));
    c.step(CliEvent::RateChecked(Ok(())));
    c.step(CliEvent::Opened(Ok(())));
    c.step(CliEvent::Proposed(Ok((1_000, 10_000))));
    c.step(CliEvent::Guarded(Ok(())));
    let (entry, record) = log_entry(c.step(CliEvent::Broadcasted(Err("transport error".into()))));
    assert_eq!((entry.error.as_deref(), entry.txid), (Some("transport error"), None));
    assert!(!record);
    assert_eq!(failure(c.step(CliEvent::Logged)), (false, "transport error".to_string()));
}

#[test]
fn an_x402_payment_reads_the_seed_only_after_policy_and_rate_limit() {
    let (mut x, first) = cmd_x402_pay(&testnet(), Some("{body}".into()), Some("ctx".into()));
    assert_eq!(first, CliAction::EnsureParams);
    x.step(CliEvent::ParamsReady(Ok(())));
    assert_eq!(
        x.step(CliEvent::Synced(Ok(()))),
        CliAction::ReadPaywall { body: "{body}".into(), network: "zcash:testnet".into() }
    );
    assert_eq!(x.step(CliEvent::PaywallRead(Ok(("utest1pay".into(), 2_500)))), CliAction::LoadPolicy);
    assert_eq!(x.step(CliEvent::PolicyLoaded(Ok(()))), CliAction::ReadDailySpent);
    assert_eq!(
        x.step(CliEvent::DailySpent(Ok(0))),
        CliAction::CheckProposal { address: "utest1pay".into(), amount: 2_500, context_id: Some("ctx".into()), daily_spent: 0 }
    );
    assert_eq!(x.step(CliEvent::Verdict(Ok(()))), CliAction::CheckRateLimit);
    assert_eq!(x.step(CliEvent::RateChecked(Ok(()))), CliAction::OpenWallet);
    assert_eq!(
        x.step(CliEvent::Opened(Ok(()))),
        CliAction::Propose { address: "utest1pay".into(), amount: 2_500, memo: None, is_max: false, priority: false }
    );
    assert_eq!(x.step(CliEvent::Proposed(Ok((2_500, 10_000)))), CliAction::ReadSeed);
    assert_eq!(x.step(CliEvent::SeedRead(Ok(()))), CliAction::ConfirmSend);
    let (entry, record) = log_entry(x.step(CliEvent::Broadcasted(Ok("tx-7".into()))));
    assert_eq!((entry.action, entry.txid.as_deref()), (AuditAction::X402Pay, Some("tx-7")));
    assert!(record);
    assert_eq!(x.step(CliEvent::Logged), CliAction::DeletePending);
    assert_eq!(x.step(CliEvent::PendingDeleted), CliAction::SignPayment { txid: "tx-7".into() });
    assert_eq!(
        x.step(CliEvent::PaymentSigned("sig".into())),
        CliAction::Finish {
            close: true,
            result: Ok(CliOutput::Paid {
                txid: "tx-7".into(),
                payment_signature: "sig".into(),
                amount: 2_500,
                fee: 10_000,
                address: "utest1pay".into(),
            }),
        }
    );
}

#[test]
fn an_x402_payment_over_the_rate_limit_is_logged_and_refused() {
    let (mut x, _) = cmd_x402_pay(&testnet(), None, None);
    x.step(CliEvent::ParamsReady(Ok(())));
    assert_eq!(x.step(CliEvent::Synced(Ok(()))), CliAction::ReadStdin);
    x.step(CliEvent::Piped("{}".into()));
    x.step(CliEvent::PaywallRead(Ok(("t1x".into(), 5))));
    x.step(CliEvent::PolicyLoaded(Ok(())));
    x.step(CliEvent::DailySpent(Ok(0)));
    x.step(CliEvent::Verdict(Ok(())));
    let (entry, _) = log_entry(x.step(CliEvent::RateChecked(Err("RATE_LIMITED: wait".into()))));
    assert_eq!((entry.action, entry.amount, entry.error.as_deref()), (AuditAction::X402Pay, Some(5), Some("RATE_LIMITED: wait")));
    assert_eq!(failure(x.step(CliEvent::Logged)).1, "RATE_LIMITED: wait");
}

#[test]
fn consolidation_sends_everything_to_the_first_own_address() {
    let (mut c, first) = cmd_consolidate(&testnet());
    assert_eq!(first, CliAction::EnsureParams);
    assert_eq!(c.step(CliEvent::ParamsReady(Ok(()))), CliAction::ForceSync);
    assert_eq!(c.step(CliEvent::Synced(Ok(()))), CliAction::OpenWallet);
    assert_eq!(c.step(CliEvent::Opened(Ok(()))), CliAction::ListAddresses);
    assert_eq!(
        c.step(CliEvent::AddressesListed(Ok(vec!["utest1own".into(), "utest1other".into()]))),
        CliAction::Propose { address: "utest1own".into(), amount: 0, memo: None, is_max: true, priority: false }
    );
    assert_eq!(c.step(CliEvent::Proposed(Ok((99_000, 1_000)))), CliAction::ReadSeed);
    assert_eq!(c.step(CliEvent::SeedRead(Ok(()))), CliAction::ConfirmSend);
    assert_eq!(
        c.step(CliEvent::Broadcasted(Ok("tx-c".into()))),
        CliAction::Finish { close: true, result: Ok(CliOutput::Consolidated { txid: "tx-c".into(), amount: 99_000, fee: 1_000 }) }
    );
}

#[test]
fn consolidation_without_an_address_is_refused() {
    let (mut c, _) = cmd_consolidate(&testnet());
    c.step(CliEvent::ParamsReady(Ok(())));
    c.step(CliEvent::Synced(Ok(())));
    c.step(CliEvent::Opened(Ok(())));
    assert_eq!(
        failure(c.step(CliEvent::AddressesListed(Ok(vec![])))),
        (false, "No address found — wallet may not be initialized".to_string())
    );
}

#[test]
fn an_unreadable_audit_log_refuses_before_any_verdict() {
    let (mut p, _) = cmd_send_propose(&testnet(), "utest1to".into(), 5_000, false, None, None, false);
    p.step(CliEvent::Synced(Ok(())));
    p.step(CliEvent::PolicyLoaded(Ok(())));
    assert_eq!(failure(p.step(CliEvent::DailySpent(Err("audit log unreadable".into())))), (false, "audit log unreadable".to_string()));

    let (mut x, _) = cmd_x402_pay(&testnet(), Some("{}".into()), None);
    x.step(CliEvent::ParamsReady(Ok(())));
    x.step(CliEvent::Synced(Ok(())));
    x.step(CliEvent::PaywallRead(Ok(("utest1pay".into(), 2_500))));
    x.step(CliEvent::PolicyLoaded(Ok(())));
    assert_eq!(failure(x.step(CliEvent::DailySpent(Err("audit log unreadable".into())))), (false, "audit log unreadable".to_string()));
}
