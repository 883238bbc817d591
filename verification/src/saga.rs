//! The redemption saga as a state machine. Each step takes the answer to the
//! action that was asked for last and gives the next action; whoever drives
//! the saga performs the actions against the store and the subscription
//! service.

use vstd::prelude::*;
use crate::config::Config;
use crate::extender::{ExtensionResult, ResultView};
use crate::guard::{PendingRedemption, PendingView, Stage};
use crate::ledger::{Account, AccountView};
use crate::outcome::{FailStage, OutcomeView, RedemptionOutcome, RejectReason};
use crate::request::{Fingerprint, RedemptionRequest};

verus! {

/// What the saga asks its driver to do next.
#[derive(Debug, PartialEq, Eq)]
pub enum Action {
    /// Look up the guard's record for the key.
    FindPending { fingerprint: Fingerprint },
    /// Open a transaction, lock the account row of the user and read it.
    LockAccount { user_id: i64 },
    /// In the open transaction: take `coins` from the balance provided it
    /// holds as much, keep `record` provided its key is free, and commit.
    CommitDebit { user_id: i64, coins: u64, record: PendingRedemption },
    /// Ask the subscription service for `days` more days of `plan`, waiting at
    /// most `timeout_secs` seconds, once.
    Extend { user_id: i64, days: i64, plan: String, timeout_secs: u64 },
    /// Drop the guard's record for the key: the redemption is finished.
    Settle { fingerprint: Fingerprint },
    /// Report `outcome`. With `release`, first roll back the transaction
    /// that is open and so release the lock.
    Finish { outcome: RedemptionOutcome, release: bool },
}

/// The mathematical value of an [`Action`].
pub enum ActionView {
    FindPending { fingerprint: Fingerprint },
    LockAccount { user_id: i64 },
    CommitDebit { user_id: i64, coins: nat, record: PendingView },
    Extend { user_id: i64, days: i64, plan: Seq<char>, timeout_secs: nat },
    Settle { fingerprint: Fingerprint },
    Finish { outcome: OutcomeView, release: bool },
}

impl View for Action {
    type V = ActionView;

    open spec fn view(&self) -> ActionView {
        match *self {
            Action::FindPending { fingerprint } => ActionView::FindPending { fingerprint },
            Action::LockAccount { user_id } => ActionView::LockAccount { user_id },
            Action::CommitDebit { user_id, coins, record } => ActionView::CommitDebit {
                user_id,
                coins: coins as nat,
                record: record@,
            },
            Action::Extend { user_id, days, plan, timeout_secs } => ActionView::Extend {
                user_id,
                days,
                plan: plan@,
                timeout_secs: timeout_secs as nat,
            },
            Action::Settle { fingerprint } => ActionView::Settle { fingerprint },
            Action::Finish { outcome, release } => ActionView::Finish { outcome: outcome@, release },
        }
    }
}

/// The answer to an action.
#[derive(Debug, PartialEq, Eq)]
pub enum Event {
    /// The guard's record for the key, or none.
    Pending { record: Option<PendingRedemption> },
    /// The locked account, or none if the user has no account.
    AccountLocked { account: Option<Account> },
    /// The debit and the guard's record are committed.
    DebitCommitted,
    /// What the call to the subscription service achieved.
    Extension { result: ExtensionResult },
    /// The guard's record is dropped.
    Settled,
    /// The store could not do what was asked; nothing was changed.
    StoreFailed { detail: String },
}

/// The mathematical value of an [`Event`].
pub enum EventView {
    Pending { record: Option<PendingView> },
    AccountLocked { account: Option<AccountView> },
    DebitCommitted,
    Extension { result: ResultView },
    Settled,
    StoreFailed { detail: Seq<char> },
}

/// The mathematical value of an optional record.
pub open spec fn record_view(record: Option<PendingRedemption>) -> Option<PendingView> {
    match record {
        Some(r) => Some(r@),
        None => None,
    }
}

/// The mathematical value of an optional account.
pub open spec fn account_view(account: Option<Account>) -> Option<AccountView> {
    match account {
        Some(a) => Some(a@),
        None => None,
    }
}

impl View for Event {
    type V = EventView;

    open spec fn view(&self) -> EventView {
        match *self {
            Event::Pending { record } => EventView::Pending { record: record_view(record) },
            Event::AccountLocked { account } => EventView::AccountLocked { account: account_view(account) },
            Event::DebitCommitted => EventView::DebitCommitted,
            Event::Extension { result } => EventView::Extension { result: result@ },
            Event::Settled => EventView::Settled,
            Event::StoreFailed { detail } => EventView::StoreFailed { detail: detail@ },
        }
    }
}

/// Where a saga stands.
#[derive(Debug, PartialEq, Eq)]
pub enum SagaState {
    /// The guard was asked for a record of this redemption.
    AwaitingGuard,
    /// The account was asked for; a transaction is open and holds the lock.
    AwaitingAccount,
    /// The debit was asked for; `record` goes into the guard with it.
    AwaitingCommit { record: PendingRedemption },
    /// The debit is committed and the extension was asked for.
    AwaitingExtension { record: PendingRedemption },
    /// The extension was granted; the guard was asked to drop the record.
    AwaitingSettle { record: PendingRedemption, subscription_end: String },
    /// The saga has ended.
    Finished { outcome: RedemptionOutcome },
}

/// The mathematical value of a [`SagaState`].
pub enum StateView {
    AwaitingGuard,
    AwaitingAccount,
    AwaitingCommit { record: PendingView },
    AwaitingExtension { record: PendingView },
    AwaitingSettle { record: PendingView, subscription_end: Seq<char> },
    Finished { outcome: OutcomeView },
}

impl View for SagaState {
    type V = StateView;

    open spec fn view(&self) -> StateView {
        match *self {
            SagaState::AwaitingGuard => StateView::AwaitingGuard,
            SagaState::AwaitingAccount => StateView::AwaitingAccount,
            SagaState::AwaitingCommit { record } => StateView::AwaitingCommit { record: record@ },
            SagaState::AwaitingExtension { record } => StateView::AwaitingExtension { record: record@ },
            SagaState::AwaitingSettle { record, subscription_end } => StateView::AwaitingSettle {
                record: record@,
                subscription_end: subscription_end@,
            },
            SagaState::Finished { outcome } => StateView::Finished { outcome: outcome@ },
        }
    }
}

/// One logical redemption: what was asked, under which key and configuration,
/// and when.
#[derive(Clone, Copy, Debug, PartialEq, Eq, Structural)]
pub struct Redemption {
    pub cfg: Config,
    pub request: RedemptionRequest,
    /// The caller's nonce; with the request it makes the fingerprint.
    pub nonce: u64,
    /// When the saga began, in seconds since the epoch.
    pub now: i64,
}

/// One redemption in progress: what was asked and where the saga stands.
#[derive(Debug, PartialEq, Eq)]
pub struct Saga {
    pub redemption: Redemption,
    pub state: SagaState,
}

/// The detail reported when an answer does not fit the action it answers.
pub open spec fn unexpected() -> Seq<char> {
    "unexpected answer"@
}

impl EventView {
    /// The detail to report when this answer ends the saga as a failure.
    pub open spec fn failure_detail(self) -> Seq<char> {
        match self {
            EventView::StoreFailed { detail } => detail,
            _ => unexpected(),
        }
    }
}

impl StateView {
    /// The number of steps the saga can still take from this state.
    pub open spec fn rank(self) -> nat {
        match self {
            StateView::AwaitingGuard => 5,
            StateView::AwaitingAccount => 4,
            StateView::AwaitingCommit { .. } => 3,
            StateView::AwaitingExtension { .. } => 2,
            StateView::AwaitingSettle { .. } => 1,
            StateView::Finished { .. } => 0,
        }
    }

    /// The checkpoint the saga has reached, if its debit is committed.
    pub open spec fn stage(self) -> Option<Stage> {
        match self {
            StateView::AwaitingExtension { record } => Some(record.stage),
            StateView::AwaitingSettle { record, .. } => Some(record.stage),
            _ => None,
        }
    }

    /// Whether a transaction is open in this state, holding the lock on the
    /// account.
    pub open spec fn holds_lock(self) -> bool {
        self is AwaitingAccount || self is AwaitingCommit
    }
}

/// The saga ended with `outcome`.
pub open spec fn finish(outcome: OutcomeView, release: bool) -> (StateView, ActionView) {
    (StateView::Finished { outcome }, ActionView::Finish { outcome, release })
}

/// The saga ended as a failure.
pub open spec fn fail(stage: FailStage, detail: Seq<char>, release: bool) -> (StateView, ActionView) {
    finish(OutcomeView::Failed { stage, detail }, release)
}

/// The saga ended as a rejection; the open transaction is rolled back.
pub open spec fn reject(reason: RejectReason) -> (StateView, ActionView) {
    finish(OutcomeView::Rejected { reason }, true)
}

impl Redemption {
    /// The key under which the redemption is deduplicated.
    pub open spec fn fingerprint(self) -> Fingerprint {
        Fingerprint { user_id: self.request.user_id, days: self.request.days, nonce: self.nonce }
    }

    /// The debit of `record` is committed: the extension is asked for.
    pub open spec fn extend(self, record: PendingView) -> (StateView, ActionView) {
        (
            StateView::AwaitingExtension { record: record.at(Stage::ExtendRequested) },
            ActionView::Extend {
                user_id: self.request.user_id,
                days: self.request.days,
                plan: record.plan,
                timeout_secs: self.cfg.extend_timeout_secs as nat,
            },
        )
    }

    /// The record the guard keeps once `coins` are taken from `account`.
    pub open spec fn record_for(self, account: AccountView, coins: nat) -> PendingView {
        PendingView {
            fingerprint: self.fingerprint(),
            stage: Stage::Debited,
            created_at: self.now as int,
            coins_required: coins,
            balance_after: (account.balance - coins) as nat,
            plan: account.plan,
        }
    }

    /// How the saga begins: a request for no days is rejected on the spot,
    /// with nothing asked of anyone; every other request first goes to the
    /// guard.
    pub open spec fn begin(self) -> (StateView, ActionView) {
        if self.request.valid() {
            (StateView::AwaitingGuard, ActionView::FindPending { fingerprint: self.fingerprint() })
        } else {
            finish(OutcomeView::Rejected { reason: RejectReason::InvalidDays }, false)
        }
    }

    /// The guard answered. A record under the key means the debit was made
    /// before: the saga skips it and resumes at the extension. No record
    /// means the redemption is new: the account is locked and read.
    pub open spec fn on_guard(self, event: EventView) -> (StateView, ActionView) {
        match event {
            EventView::Pending { record: Some(record) } => if record.fingerprint == self.fingerprint() {
                self.extend(record)
            } else {
                fail(FailStage::Store, unexpected(), false)
            },
            EventView::Pending { record: None } => (
                StateView::AwaitingAccount,
                ActionView::LockAccount { user_id: self.request.user_id },
            ),
            _ => fail(FailStage::Store, event.failure_detail(), false),
        }
    }

    /// The account was read under the lock. An unknown user and a balance
    /// below the price are rejected, and the lock is released; else the debit
    /// is asked for.
    pub open spec fn on_account(self, event: EventView) -> (StateView, ActionView) {
        match event {
            EventView::AccountLocked { account: None } => reject(RejectReason::UnknownUser),
            EventView::AccountLocked { account: Some(account) } => if account.user_id
                != self.request.user_id {
                fail(FailStage::Store, unexpected(), true)
            } else if !self.request.valid() {
                reject(RejectReason::InvalidDays)
            } else if account.balance < self.request.cost(self.cfg) {
                reject(RejectReason::InsufficientBalance)
            } else {
                let coins = self.request.cost(self.cfg) as nat;
                let record = self.record_for(account, coins);
                (
                    StateView::AwaitingCommit { record },
                    ActionView::CommitDebit { user_id: self.request.user_id, coins, record },
                )
            },
            _ => fail(FailStage::Store, event.failure_detail(), true),
        }
    }

    /// The commit was answered. Only after the store has confirmed it is the
    /// extension asked for.
    pub open spec fn on_commit(self, record: PendingView, event: EventView) -> (StateView, ActionView) {
        match event {
            EventView::DebitCommitted => self.extend(record),
            _ => fail(FailStage::Store, event.failure_detail(), true),
        }
    }

    /// The subscription service was heard from, or not. Whatever came back,
    /// the debit stands.
    pub open spec fn on_extension(self, record: PendingView, event: EventView) -> (StateView, ActionView) {
        match event {
            EventView::Extension { result: ResultView::Granted { subscription_end } } => (
                StateView::AwaitingSettle { record: record.at(Stage::Extended), subscription_end },
                ActionView::Settle { fingerprint: record.fingerprint },
            ),
            EventView::Extension { result: ResultView::CallFailed { detail } } => fail(
                FailStage::Extension,
                detail,
                false,
            ),
            EventView::Extension { result: ResultView::BadAnswer { detail } } => fail(
                FailStage::ExtensionParse,
                detail,
                false,
            ),
            _ => fail(FailStage::Extension, event.failure_detail(), false),
        }
    }

    /// The guard dropped the record, or failed to.
    pub open spec fn on_settle(self, record: PendingView, subscription_end: Seq<char>, event: EventView) -> (
        StateView,
        ActionView,
    ) {
        match event {
            EventView::Settled => finish(
                OutcomeView::Completed { new_balance: record.balance_after, subscription_end },
                false,
            ),
            _ => fail(FailStage::ExtensionSettle, event.failure_detail(), false),
        }
    }

    /// One step of the saga: the state it moves to from `state` on `event`,
    /// and the next action. A finished saga stays finished and reports its
    /// outcome again.
    pub open spec fn step(self, state: StateView, event: EventView) -> (StateView, ActionView) {
        match state {
            StateView::AwaitingGuard => self.on_guard(event),
            StateView::AwaitingAccount => self.on_account(event),
            StateView::AwaitingCommit { record } => self.on_commit(record, event),
            StateView::AwaitingExtension { record } => self.on_extension(record, event),
            StateView::AwaitingSettle { record, subscription_end } => self.on_settle(
                record,
                subscription_end,
                event,
            ),
            StateView::Finished { outcome } => (state, ActionView::Finish { outcome, release: false }),
        }
    }
}

impl Event {
    /// The detail to report when this answer ends the saga as a failure.
    pub fn failure_detail(self) -> (d: String)
        ensures
            d@ == self@.failure_detail(),
    {
        match self {
            Event::StoreFailed { detail } => detail,
            _ => "unexpected answer".to_string(),
        }
    }
}

impl SagaState {
    /// The checkpoint the saga has reached, if its debit is committed.
    pub fn stage(&self) -> (s: Option<Stage>)
        ensures
            s == self@.stage(),
    {
        match self {
            SagaState::AwaitingExtension { record } => Some(record.stage),
            SagaState::AwaitingSettle { record, .. } => Some(record.stage),
            _ => None,
        }
    }

    /// Tells whether a transaction is open in this state.
    pub fn holds_lock(&self) -> (b: bool)
        ensures
            b == self@.holds_lock(),
    {
        match self {
            SagaState::AwaitingAccount => true,
            SagaState::AwaitingCommit { .. } => true,
            _ => false,
        }
    }
}

fn finished(outcome: RedemptionOutcome, release: bool) -> (r: (SagaState, Action))
    ensures
        (r.0@, r.1@) == finish(outcome@, release),
{
    let reported = outcome.clone();
    (SagaState::Finished { outcome }, Action::Finish { outcome: reported, release })
}

fn failed(stage: FailStage, detail: String, release: bool) -> (r: (SagaState, Action))
    ensures
        (r.0@, r.1@) == fail(stage, detail@, release),
{
    finished(RedemptionOutcome::Failed { stage, detail }, release)
}

fn rejected(reason: RejectReason) -> (r: (SagaState, Action))
    ensures
        (r.0@, r.1@) == reject(reason),
{
    finished(RedemptionOutcome::Rejected { reason }, true)
}

impl Redemption {
    /// The key under which the redemption is deduplicated.
    pub fn key(&self) -> (f: Fingerprint)
        ensures
            f == self.fingerprint(),
    {
        self.request.fingerprint(self.nonce)
    }

    fn extended(&self, record: PendingRedemption) -> (r: (SagaState, Action))
        ensures
            (r.0@, r.1@) == self.extend(record@),
    {
        let plan = record.plan.clone();
        (
            SagaState::AwaitingExtension { record: record.at(Stage::ExtendRequested) },
            Action::Extend {
                user_id: self.request.user_id,
                days: self.request.days,
                plan,
                timeout_secs: self.cfg.extend_timeout_secs,
            },
        )
    }

    fn guard_answered(&self, event: Event) -> (r: (SagaState, Action))
        ensures
            (r.0@, r.1@) == self.on_guard(event@),
    {
        match event {
            Event::Pending { record: Some(record) } => {
                if record.fingerprint == self.key() {
                    self.extended(record)
                } else {
                    failed(FailStage::Store, "unexpected answer".to_string(), false)
                }
            },
            Event::Pending { record: None } => (
                SagaState::AwaitingAccount,
                Action::LockAccount { user_id: self.request.user_id },
            ),
            other => failed(FailStage::Store, other.failure_detail(), false),
        }
    }

    fn account_answered(&self, event: Event) -> (r: (SagaState, Action))
        ensures
            (r.0@, r.1@) == self.on_account(event@),
    {
        match event {
            Event::AccountLocked { account: None } => rejected(RejectReason::UnknownUser),
            Event::AccountLocked { account: Some(account) } => {
                if account.user_id != self.request.user_id {
                    return failed(FailStage::Store, "unexpected answer".to_string(), true);
                }
                if !self.request.is_valid() {
                    return rejected(RejectReason::InvalidDays);
                }
                match self.request.coins_required(&self.cfg) {
                    None => rejected(RejectReason::InsufficientBalance),
                    Some(coins) => {
                        if account.balance < coins {
                            return rejected(RejectReason::InsufficientBalance);
                        }
                        let record = PendingRedemption {
                            fingerprint: self.key(),
                            stage: Stage::Debited,
                            created_at: self.now,
                            coins_required: coins,
                            balance_after: account.balance - coins,
                            plan: account.plan,
                        };
                        let kept = record.clone();
                        (
                            SagaState::AwaitingCommit { record: kept },
                            Action::CommitDebit { user_id: self.request.user_id, coins, record },
                        )
                    },
                }
            },
            other => failed(FailStage::Store, other.failure_detail(), true),
        }
    }

    fn commit_answered(&self, record: PendingRedemption, event: Event) -> (r: (SagaState, Action))
        ensures
            (r.0@, r.1@) == self.on_commit(record@, event@),
    {
        match event {
            Event::DebitCommitted => self.extended(record),
            other => failed(FailStage::Store, other.failure_detail(), true),
        }
    }

    fn extension_answered(&self, record: PendingRedemption, event: Event) -> (r: (SagaState, Action))
        ensures
            (r.0@, r.1@) == self.on_extension(record@, event@),
    {
        match event {
            Event::Extension { result: ExtensionResult::Granted { subscription_end } } => {
                let fingerprint = record.fingerprint;
                (
                    SagaState::AwaitingSettle { record: record.at(Stage::Extended), subscription_end },
                    Action::Settle { fingerprint },
                )
            },
            Event::Extension { result: ExtensionResult::CallFailed { detail } } => failed(
                FailStage::Extension,
                detail,
                false,
            ),
            Event::Extension { result: ExtensionResult::BadAnswer { detail } } => failed(
                FailStage::ExtensionParse,
                detail,
                false,
            ),
            other => failed(FailStage::Extension, other.failure_detail(), false),
        }
    }

    fn settle_answered(&self, record: PendingRedemption, subscription_end: String, event: Event) -> (r: (
        SagaState,
        Action,
    ))
        ensures
            (r.0@, r.1@) == self.on_settle(record@, subscription_end@, event@),
    {
        match event {
            Event::Settled => finished(
                RedemptionOutcome::Completed { new_balance: record.balance_after, subscription_end },
                false,
            ),
            other => failed(FailStage::ExtensionSettle, other.failure_detail(), false),
        }
    }
}

impl Saga {
    /// Begins the redemption of `request` under the caller's `nonce` at the
    /// time `now`, and gives the first action.
    pub fn begin(cfg: Config, request: RedemptionRequest, nonce: u64, now: i64) -> (r: (Saga, Action))
        ensures
            r.0.redemption == (Redemption { cfg, request, nonce, now }),
            (r.0.state@, r.1@) == r.0.redemption.begin(),
    {
        let redemption = Redemption { cfg, request, nonce, now };
        if request.is_valid() {
            (
                Saga { redemption, state: SagaState::AwaitingGuard },
                Action::FindPending { fingerprint: redemption.key() },
            )
        } else {
            let (state, action) = finished(
                RedemptionOutcome::Rejected { reason: RejectReason::InvalidDays },
                false,
            );
            (Saga { redemption, state }, action)
        }
    }

    /// Tells whether the saga has ended.
    pub fn is_finished(&self) -> (b: bool)
        ensures
            b == (self.state@ is Finished),
    {
        match self.state {
            SagaState::Finished { .. } => true,
            _ => false,
        }
    }

    /// One step of the saga: takes the answer to the action that was given
    /// last and gives the next action.
    pub fn step(self, event: Event) -> (r: (Saga, Action))
        ensures
            r.0.redemption == self.redemption,
            (r.0.state@, r.1@) == self.redemption.step(self.state@, event@),
    {
        let redemption = self.redemption;
        let (state, action) = match self.state {
            SagaState::AwaitingGuard => redemption.guard_answered(event),
            SagaState::AwaitingAccount => redemption.account_answered(event),
            SagaState::AwaitingCommit { record } => redemption.commit_answered(record, event),
            SagaState::AwaitingExtension { record } => redemption.extension_answered(record, event),
            SagaState::AwaitingSettle { record, subscription_end } => redemption.settle_answered(
                record,
                subscription_end,
                event,
            ),
            SagaState::Finished { outcome } => finished(outcome, false),
        };
        (Saga { redemption, state }, action)
    }
}

} // verus!
