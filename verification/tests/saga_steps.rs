use reward_ledger::config::Config;
use reward_ledger::extender::ExtensionResult;
use reward_ledger::guard::{PendingRedemption, Stage};
use reward_ledger::ledger::Account;
use reward_ledger::outcome::{FailStage, RedemptionOutcome, RejectReason};
use reward_ledger::request::{Fingerprint, RedemptionRequest};
use reward_ledger::saga::{Action, Event, Redemption, Saga, SagaState};
use reward_ledger::store::Store;

const NOW: i64 = 1_700_000_000;

fn key() -> Fingerprint {
    Fingerprint { user_id: 7, days: 2, nonce: 4 }
}

fn begin() -> (Saga, Action) {
    Saga::begin(Config::reference(), RedemptionRequest { user_id: 7, days: 2 }, 4, NOW)
}

fn account(balance: u64) -> Account {
    Account { user_id: 7, balance, plan: "pro".to_string() }
}

fn debited_record() -> PendingRedemption {
    PendingRedemption {
        fingerprint: key(),
        stage: Stage::Debited,
        created_at: NOW,
        coins_required: 60,
        balance_after: 40,
        plan: "pro".to_string(),
    }
}

fn store_failed() -> Event {
    Event::StoreFailed { detail: "connection lost".to_string() }
}

fn failed(stage: FailStage, detail: &str, release: bool) -> Action {
    Action::Finish {
        outcome: RedemptionOutcome::Failed { stage, detail: detail.to_string() },
        release,
    }
}

fn to_account() -> Saga {
    let (saga, _) = begin();
    let (saga, action) = saga.step(Event::Pending { record: None });
    assert_eq!(action, Action::LockAccount { user_id: 7 });
    saga
}

fn to_commit() -> Saga {
    let (saga, _) = to_account().step(Event::AccountLocked { account: Some(account(100)) });
    saga
}

fn to_extension() -> Saga {
    let (saga, _) = to_commit().step(Event::DebitCommitted);
    saga
}

fn to_settle() -> Saga {
    let (saga, _) = to_extension().step(Event::Extension {
        result: ExtensionResult::Granted { subscription_end: "2030-03-01".to_string() },
    });
    saga
}

#[test]
fn saga_begins_at_the_guard() {
    let (saga, action) = begin();
    assert_eq!(action, Action::FindPending { fingerprint: key() });
    assert_eq!(saga.state, SagaState::AwaitingGuard);
    assert_eq!(
        saga.redemption,
        Redemption {
            cfg: Config::reference(),
            request: RedemptionRequest { user_id: 7, days: 2 },
            nonce: 4,
            now: NOW,
        }
    );
    assert_eq!(saga.redemption.key(), key());
    assert!(!saga.is_finished());
    assert!(!saga.state.holds_lock());
    assert_eq!(saga.state.stage(), None);
}

#[test]
fn saga_rejects_no_days_at_once() {
    let (saga, action) = Saga::begin(Config::reference(), RedemptionRequest { user_id: 7, days: 0 }, 4, NOW);
    let outcome = RedemptionOutcome::Rejected { reason: RejectReason::InvalidDays };
    assert_eq!(action, Action::Finish { outcome: outcome.clone(), release: false });
    assert_eq!(saga.state, SagaState::Finished { outcome });
    assert!(saga.is_finished());
}

#[test]
fn fresh_redemption_walks_every_stage() {
    let (saga, _) = begin();
    let (saga, action) = saga.step(Event::Pending { record: None });
    assert_eq!(action, Action::LockAccount { user_id: 7 });
    assert!(saga.state.holds_lock());

    let (saga, action) = saga.step(Event::AccountLocked { account: Some(account(100)) });
    assert_eq!(action, Action::CommitDebit { user_id: 7, coins: 60, record: debited_record() });
    assert_eq!(saga.state, SagaState::AwaitingCommit { record: debited_record() });
    assert!(saga.state.holds_lock());
    assert_eq!(saga.state.stage(), None);

    let (saga, action) = saga.step(Event::DebitCommitted);
    assert_eq!(
        action,
        Action::Extend { user_id: 7, days: 2, plan: "pro".to_string(), timeout_secs: 30 }
    );
    assert!(!saga.state.holds_lock());
    assert_eq!(saga.state.stage(), Some(Stage::ExtendRequested));

    let (saga, action) = saga.step(Event::Extension {
        result: ExtensionResult::Granted { subscription_end: "2030-03-01".to_string() },
    });
    assert_eq!(action, Action::Settle { fingerprint: key() });
    assert_eq!(saga.state.stage(), Some(Stage::Extended));

    let (saga, action) = saga.step(Event::Settled);
    let outcome = RedemptionOutcome::Completed {
        new_balance: 40,
        subscription_end: "2030-03-01".to_string(),
    };
    assert_eq!(action, Action::Finish { outcome: outcome.clone(), release: false });
    assert_eq!(saga.state, SagaState::Finished { outcome: outcome.clone() });
    assert!(saga.is_finished());

    let (saga, action) = saga.step(Event::Settled);
    assert_eq!(action, Action::Finish { outcome: outcome.clone(), release: false });
    assert_eq!(saga.state, SagaState::Finished { outcome });
}

#[test]
fn recorded_redemption_resumes_at_the_extension() {
    let (saga, _) = begin();
    let mut record = debited_record();
    record.created_at = NOW - 500;
    record.plan = "legacy".to_string();
    record.balance_after = 3;
    let (saga, action) = saga.step(Event::Pending { record: Some(record.clone()) });
    assert_eq!(
        action,
        Action::Extend { user_id: 7, days: 2, plan: "legacy".to_string(), timeout_secs: 30 }
    );
    assert_eq!(
        saga.state,
        SagaState::AwaitingExtension { record: record.at(Stage::ExtendRequested) }
    );
    let (saga, _) = saga.step(Event::Extension {
        result: ExtensionResult::Granted { subscription_end: "2030-03-01".to_string() },
    });
    let (_, action) = saga.step(Event::Settled);
    assert_eq!(
        action,
        Action::Finish {
            outcome: RedemptionOutcome::Completed {
                new_balance: 3,
                subscription_end: "2030-03-01".to_string(),
            },
            release: false,
        }
    );
}

#[test]
fn unknown_user_asks_nothing_of_the_store_but_the_read() {
    let (saga, action) = to_account().step(Event::AccountLocked { account: None });
    assert_eq!(
        action,
        Action::Finish {
            outcome: RedemptionOutcome::Rejected { reason: RejectReason::UnknownUser },
            release: true,
        }
    );
    assert!(saga.is_finished());
}

#[test]
fn balance_below_the_price_is_rejected_under_the_lock() {
    let (_, action) = to_account().step(Event::AccountLocked { account: Some(account(59)) });
    assert_eq!(
        action,
        Action::Finish {
            outcome: RedemptionOutcome::Rejected { reason: RejectReason::InsufficientBalance },
            release: true,
        }
    );
    let (_, action) = to_account().step(Event::AccountLocked { account: Some(account(60)) });
    assert!(matches!(action, Action::CommitDebit { coins: 60, .. }));
}

#[test]
fn store_failure_before_the_commit_fails_at_the_store() {
    let (saga, _) = begin();
    let (saga, action) = saga.step(store_failed());
    assert_eq!(action, failed(FailStage::Store, "connection lost", false));
    assert!(saga.is_finished());

    let (_, action) = to_account().step(store_failed());
    assert_eq!(action, failed(FailStage::Store, "connection lost", true));

    let (_, action) = to_commit().step(store_failed());
    assert_eq!(action, failed(FailStage::Store, "connection lost", true));
}

#[test]
fn failed_extension_keeps_the_debit() {
    let (_, action) = to_extension().step(Event::Extension {
        result: ExtensionResult::CallFailed { detail: "timed out".to_string() },
    });
    assert_eq!(action, failed(FailStage::Extension, "timed out", false));

    let (_, action) = to_extension().step(Event::Extension {
        result: ExtensionResult::BadAnswer { detail: "no expiry".to_string() },
    });
    assert_eq!(action, failed(FailStage::ExtensionParse, "no expiry", false));
}

#[test]
fn store_failure_after_the_extension_fails_at_the_settlement() {
    let (saga, action) = to_settle().step(store_failed());
    assert_eq!(action, failed(FailStage::ExtensionSettle, "connection lost", false));
    assert!(saga.is_finished());
}

#[test]
fn answers_that_do_not_fit_end_the_saga() {
    let (saga, _) = begin();
    let (_, action) = saga.step(Event::Settled);
    assert_eq!(action, failed(FailStage::Store, "unexpected answer", false));

    let (saga, _) = begin();
    let mut other = debited_record();
    other.fingerprint.nonce = 5;
    let (_, action) = saga.step(Event::Pending { record: Some(other) });
    assert_eq!(action, failed(FailStage::Store, "unexpected answer", false));

    let (_, action) = to_account().step(Event::DebitCommitted);
    assert_eq!(action, failed(FailStage::Store, "unexpected answer", true));

    let mut stranger = account(100);
    stranger.user_id = 8;
    let (_, action) = to_account().step(Event::AccountLocked { account: Some(stranger) });
    assert_eq!(action, failed(FailStage::Store, "unexpected answer", true));

    let (_, action) = to_commit().step(Event::Settled);
    assert_eq!(action, failed(FailStage::Store, "unexpected answer", true));

    let (_, action) = to_extension().step(Event::Settled);
    assert_eq!(action, failed(FailStage::Extension, "unexpected answer", false));

    let (_, action) = to_extension().step(store_failed());
    assert_eq!(action, failed(FailStage::Extension, "connection lost", false));

    let (_, action) = to_settle().step(Event::DebitCommitted);
    assert_eq!(action, failed(FailStage::ExtensionSettle, "unexpected answer", false));
}

#[test]
fn memory_store_answers_each_action() {
    let mut store = Store::new();
    assert!(store.ledger.open_account(7, 100, "pro".to_string()));
    let idle = || ExtensionResult::CallFailed { detail: "unused".to_string() };

    assert_eq!(
        store.perform(Action::FindPending { fingerprint: key() }, idle()),
        Ok(Event::Pending { record: None })
    );
    assert_eq!(
        store.perform(Action::LockAccount { user_id: 7 }, idle()),
        Ok(Event::AccountLocked { account: Some(account(100)) })
    );
    assert_eq!(
        store.perform(Action::LockAccount { user_id: 8 }, idle()),
        Ok(Event::AccountLocked { account: None })
    );
    assert_eq!(
        store.perform(Action::CommitDebit { user_id: 7, coins: 101, record: debited_record() }, idle()),
        Ok(Event::StoreFailed { detail: "debit refused".to_string() })
    );
    assert_eq!(store.guard.find(key()), None);
    assert_eq!(
        store.perform(Action::CommitDebit { user_id: 8, coins: 1, record: debited_record() }, idle()),
        Ok(Event::StoreFailed { detail: "debit refused".to_string() })
    );
    assert_eq!(
        store.perform(Action::CommitDebit { user_id: 7, coins: 60, record: debited_record() }, idle()),
        Ok(Event::DebitCommitted)
    );
    assert_eq!(store.ledger.balance(7), Some(40));
    assert_eq!(
        store.perform(Action::FindPending { fingerprint: key() }, idle()),
        Ok(Event::Pending { record: Some(debited_record()) })
    );
    assert_eq!(
        store.perform(Action::CommitDebit { user_id: 7, coins: 10, record: debited_record() }, idle()),
        Ok(Event::StoreFailed { detail: "debit refused".to_string() })
    );
    assert_eq!(store.ledger.balance(7), Some(40));
    assert_eq!(
        store.perform(
            Action::Extend { user_id: 7, days: 2, plan: "pro".to_string(), timeout_secs: 30 },
            ExtensionResult::Granted { subscription_end: "2030".to_string() }
        ),
        Ok(Event::Extension { result: ExtensionResult::Granted { subscription_end: "2030".to_string() } })
    );
    assert_eq!(store.perform(Action::Settle { fingerprint: key() }, idle()), Ok(Event::Settled));
    assert_eq!(store.guard.find(key()), None);
    let outcome = RedemptionOutcome::Rejected { reason: RejectReason::UnknownUser };
    assert_eq!(
        store.perform(Action::Finish { outcome: outcome.clone(), release: true }, idle()),
        Err(outcome)
    );
}

#[test]
fn commit_debit_is_all_or_nothing() {
    let mut store = Store::new();
    assert!(store.ledger.open_account(7, 100, "pro".to_string()));
    assert_eq!(store.commit_debit(7, 60, debited_record()), Event::DebitCommitted);
    assert_eq!(store.ledger.balance(7), Some(40));
    let mut second = debited_record();
    second.fingerprint.nonce = 5;
    assert_eq!(
        store.commit_debit(7, 60, second.clone()),
        Event::StoreFailed { detail: "debit refused".to_string() }
    );
    assert_eq!(store.ledger.balance(7), Some(40));
    assert_eq!(store.guard.find(second.fingerprint), None);
}

#[test]
fn driving_the_saga_by_hand_comes_to_what_redeem_gives() {
    let granted = || ExtensionResult::Granted { subscription_end: "2030-06-01".to_string() };
    let mut by_hand = Store::new();
    assert!(by_hand.ledger.open_account(7, 100, "pro".to_string()));
    let (mut saga, mut action) = begin();
    let mut asked = Vec::new();
    let outcome = loop {
        asked.push(format!("{:?}", action).split(' ').next().unwrap().to_string());
        match by_hand.perform(action, granted()) {
            Ok(event) => {
                let (next, following) = saga.step(event);
                saga = next;
                action = following;
            }
            Err(outcome) => break outcome,
        }
    };
    assert_eq!(asked, vec!["FindPending", "LockAccount", "CommitDebit", "Extend", "Settle", "Finish"]);

    let mut at_once = Store::new();
    assert!(at_once.ledger.open_account(7, 100, "pro".to_string()));
    let expected = reward_ledger::coordinator::redeem_given(
        &mut at_once,
        Config::reference(),
        RedemptionRequest { user_id: 7, days: 2 },
        4,
        NOW,
        granted(),
    );
    assert_eq!(outcome, expected);
    assert_eq!(by_hand.ledger.balance(7), at_once.ledger.balance(7));
    assert_eq!(by_hand.ledger.balance(7), Some(40));
    assert_eq!(by_hand.guard.find(key()), None);
}
