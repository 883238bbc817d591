use reward_ledger::config::Config;
use reward_ledger::coordinator::{redeem, redeem_given};
use reward_ledger::extender::{ExtensionReply, ExtensionResult};
use reward_ledger::guard::Stage;
use reward_ledger::outcome::{FailStage, RedemptionOutcome, RejectReason};
use reward_ledger::request::{Fingerprint, RedemptionRequest};
use reward_ledger::store::Store;

fn store_with(user_id: i64, balance: u64) -> Store {
    let mut store = Store::new();
    assert!(store.ledger.open_account(user_id, balance, "premium".to_string()));
    store
}

fn granted(end: &str) -> ExtensionReply {
    ExtensionReply::Answered {
        status: 200,
        body: format!("{{\"subscription_end\": \"{}\", \"is_active\": 1}}", end),
    }
}

fn timeout() -> ExtensionReply {
    ExtensionReply::Unreachable { detail: "operation timed out".to_string() }
}

#[test]
fn success_path_completes_with_the_balance_left() {
    let mut store = store_with(7, 100);
    let cfg = Config::new(30, 30, 3600).unwrap();
    let request = RedemptionRequest { user_id: 7, days: 3 };
    assert_eq!(request.coins_required(&cfg), Some(90));
    let outcome = redeem(&mut store, cfg, request, 1, 1_700_000_000, granted("2030-01-31T00:00:00Z"));
    assert_eq!(
        outcome,
        RedemptionOutcome::Completed {
            new_balance: 10,
            subscription_end: "2030-01-31T00:00:00Z".to_string(),
        }
    );
    assert_eq!(store.ledger.balance(7), Some(10));
    assert_eq!(store.guard.find(request.fingerprint(1)), None);
}

#[test]
fn insufficient_balance_is_rejected_and_nothing_changes() {
    let mut store = store_with(7, 50);
    let cfg = Config::reference();
    let request = RedemptionRequest { user_id: 7, days: 3 };
    assert_eq!(request.coins_required(&cfg), Some(90));
    let outcome = redeem(&mut store, cfg, request, 1, 1_700_000_000, granted("2030-01-31T00:00:00Z"));
    assert_eq!(outcome, RedemptionOutcome::Rejected { reason: RejectReason::InsufficientBalance });
    assert_eq!(store.ledger.balance(7), Some(50));
    assert_eq!(store.guard.find(request.fingerprint(1)), None);
}

#[test]
fn timeout_fails_at_extension_and_the_debit_stands() {
    let mut store = store_with(7, 100);
    let cfg = Config::reference();
    let request = RedemptionRequest { user_id: 7, days: 2 };
    let outcome = redeem(&mut store, cfg, request, 9, 1_700_000_000, timeout());
    assert_eq!(
        outcome,
        RedemptionOutcome::Failed {
            stage: FailStage::Extension,
            detail: "operation timed out".to_string(),
        }
    );
    assert_eq!(store.ledger.balance(7), Some(40));
    let record = store.guard.find(request.fingerprint(9)).expect("the guard keeps the record");
    assert_eq!(record.stage, Stage::Debited);
    assert_eq!(record.coins_required, 60);
    assert_eq!(record.balance_after, 40);
    assert_eq!(record.created_at, 1_700_000_000);
    assert_eq!(record.plan, "premium");
    assert_eq!(record.fingerprint, Fingerprint { user_id: 7, days: 2, nonce: 9 });
}

#[test]
fn unknown_user_is_rejected_and_nothing_changes() {
    let mut store = store_with(7, 100);
    let cfg = Config::reference();
    let request = RedemptionRequest { user_id: 8, days: 1 };
    let outcome = redeem(&mut store, cfg, request, 1, 1_700_000_000, granted("2030-01-31T00:00:00Z"));
    assert_eq!(outcome, RedemptionOutcome::Rejected { reason: RejectReason::UnknownUser });
    assert_eq!(store.ledger.balance(7), Some(100));
    assert_eq!(store.ledger.balance(8), None);
    assert!(!store.ledger.has_account(8));
    assert_eq!(store.guard.find(request.fingerprint(1)), None);
}

#[test]
fn no_days_are_rejected_before_anything_is_asked() {
    let mut store = store_with(7, 100);
    let cfg = Config::reference();
    for days in [0i64, -1, i64::MIN] {
        let request = RedemptionRequest { user_id: 7, days };
        let outcome = redeem(&mut store, cfg, request, 1, 0, granted("2030-01-31T00:00:00Z"));
        assert_eq!(outcome, RedemptionOutcome::Rejected { reason: RejectReason::InvalidDays });
        assert_eq!(store.ledger.balance(7), Some(100));
    }
}

#[test]
fn exact_balance_is_enough() {
    let mut store = store_with(7, 90);
    let cfg = Config::reference();
    let request = RedemptionRequest { user_id: 7, days: 3 };
    let outcome = redeem(&mut store, cfg, request, 1, 0, granted("2031-05-01"));
    assert_eq!(
        outcome,
        RedemptionOutcome::Completed { new_balance: 0, subscription_end: "2031-05-01".to_string() }
    );
    assert_eq!(store.ledger.balance(7), Some(0));
}

#[test]
fn a_price_beyond_any_balance_is_insufficient() {
    let mut store = store_with(7, u64::MAX);
    let cfg = Config::new(u64::MAX, 30, 3600).unwrap();
    let request = RedemptionRequest { user_id: 7, days: 2 };
    assert_eq!(request.coins_required(&cfg), None);
    let outcome = redeem(&mut store, cfg, request, 1, 0, granted("2031-05-01"));
    assert_eq!(outcome, RedemptionOutcome::Rejected { reason: RejectReason::InsufficientBalance });
    assert_eq!(store.ledger.balance(7), Some(u64::MAX));
}

#[test]
fn balance_follows_outcome() {
    let cfg = Config::reference();
    let request = RedemptionRequest { user_id: 7, days: 1 };
    let replies = vec![
        (granted("2030-01-01"), true),
        (timeout(), true),
        (ExtensionReply::Answered { status: 503, body: "busy".to_string() }, true),
        (ExtensionReply::Answered { status: 200, body: "not json".to_string() }, true),
    ];
    for (reply, spent) in replies {
        let mut store = store_with(7, 45);
        assert!(store.ledger.open_account(11, 5, "basic".to_string()));
        let outcome = redeem(&mut store, cfg, request, 3, 0, reply);
        assert_eq!(outcome.is_spent(), spent);
        assert_eq!(store.ledger.balance(7), Some(15));
        assert_eq!(store.ledger.balance(11), Some(5));
    }
    let mut store = store_with(7, 29);
    let outcome = redeem(&mut store, cfg, request, 3, 0, granted("2030-01-01"));
    assert!(!outcome.is_spent());
    assert_eq!(store.ledger.balance(7), Some(29));
}

#[test]
fn replay_after_a_failed_extension_debits_once() {
    let mut store = store_with(7, 100);
    let cfg = Config::reference();
    let request = RedemptionRequest { user_id: 7, days: 2 };
    let first = redeem(&mut store, cfg, request, 5, 1000, timeout());
    assert!(matches!(first, RedemptionOutcome::Failed { stage: FailStage::Extension, .. }));
    assert_eq!(store.ledger.balance(7), Some(40));

    let second = redeem(
        &mut store,
        cfg,
        request,
        5,
        1060,
        ExtensionReply::Answered { status: 500, body: "again".to_string() },
    );
    assert_eq!(
        second,
        RedemptionOutcome::Failed { stage: FailStage::Extension, detail: "again".to_string() }
    );
    assert_eq!(store.ledger.balance(7), Some(40));
    assert_eq!(store.guard.find(request.fingerprint(5)).unwrap().created_at, 1000);

    let third = redeem(&mut store, cfg, request, 5, 1120, granted("2030-02-02"));
    assert_eq!(
        third,
        RedemptionOutcome::Completed { new_balance: 40, subscription_end: "2030-02-02".to_string() }
    );
    assert_eq!(store.ledger.balance(7), Some(40));
    assert_eq!(store.guard.find(request.fingerprint(5)), None);
}

#[test]
fn another_nonce_is_another_redemption() {
    let mut store = store_with(7, 100);
    let cfg = Config::reference();
    let request = RedemptionRequest { user_id: 7, days: 1 };
    let _ = redeem(&mut store, cfg, request, 5, 1000, timeout());
    assert_eq!(store.ledger.balance(7), Some(70));
    let _ = redeem(&mut store, cfg, request, 6, 1000, timeout());
    assert_eq!(store.ledger.balance(7), Some(40));
}

#[test]
fn two_redemptions_beyond_the_balance_do_not_both_debit() {
    let mut store = store_with(7, 100);
    let cfg = Config::reference();
    let a = RedemptionRequest { user_id: 7, days: 2 };
    let b = RedemptionRequest { user_id: 7, days: 2 };
    let first = redeem(&mut store, cfg, a, 1, 0, granted("2030-01-01"));
    let second = redeem(&mut store, cfg, b, 2, 0, granted("2030-01-03"));
    assert!(first.is_spent());
    assert_eq!(second, RedemptionOutcome::Rejected { reason: RejectReason::InsufficientBalance });
    assert_eq!(store.ledger.balance(7), Some(40));
}

#[test]
fn two_redemptions_within_the_balance_both_debit() {
    let mut store = store_with(7, 100);
    let cfg = Config::reference();
    let first = redeem(&mut store, cfg, RedemptionRequest { user_id: 7, days: 2 }, 1, 0, timeout());
    let second = redeem(
        &mut store,
        cfg,
        RedemptionRequest { user_id: 7, days: 1 },
        2,
        0,
        granted("2030-01-03"),
    );
    assert!(first.is_spent());
    assert_eq!(
        second,
        RedemptionOutcome::Completed { new_balance: 10, subscription_end: "2030-01-03".to_string() }
    );
    assert_eq!(store.ledger.balance(7), Some(10));
}

#[test]
fn redeem_given_takes_the_result_as_it_is() {
    let mut store = store_with(7, 100);
    let cfg = Config::reference();
    let request = RedemptionRequest { user_id: 7, days: 3 };
    let outcome = redeem_given(
        &mut store,
        cfg,
        request,
        1,
        0,
        ExtensionResult::BadAnswer { detail: "no expiry".to_string() },
    );
    assert_eq!(
        outcome,
        RedemptionOutcome::Failed { stage: FailStage::ExtensionParse, detail: "no expiry".to_string() }
    );
    assert_eq!(store.ledger.balance(7), Some(10));
    assert_eq!(store.guard.find(request.fingerprint(1)).unwrap().stage, Stage::Debited);
}
