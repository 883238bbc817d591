//! What the saga expects of the store it is driven against, and a store in
//! memory that meets it.

use vstd::prelude::*;
use crate::extender::{ExtensionResult, ResultView};
use crate::guard::{Guard, PendingRedemption, PendingView};
use crate::ledger::{AccountView, Ledger};
use crate::outcome::RedemptionOutcome;
use crate::request::Fingerprint;
use crate::saga::{Action, ActionView, Event, EventView};

verus! {

/// The state of a store: the accounts by user and the guard's records by key.
pub struct StoreView {
    pub accounts: Map<i64, AccountView>,
    pub pending: Map<Fingerprint, PendingView>,
}

impl StoreView {
    /// Every account is filed under its user and every record under its key.
    pub open spec fn wf(self) -> bool {
        &&& forall|u: i64| #[trigger] self.accounts.contains_key(u) ==> self.accounts[u].user_id == u
        &&& forall|f: Fingerprint| #[trigger]
            self.pending.contains_key(f) ==> self.pending[f].fingerprint == f
    }

    /// The account of `user_id`, if there is one.
    pub open spec fn account(self, user_id: i64) -> Option<AccountView> {
        if self.accounts.contains_key(user_id) {
            Some(self.accounts[user_id])
        } else {
            None
        }
    }

    /// The guard's record under `fingerprint`, if there is one.
    pub open spec fn record(self, fingerprint: Fingerprint) -> Option<PendingView> {
        if self.pending.contains_key(fingerprint) {
            Some(self.pending[fingerprint])
        } else {
            None
        }
    }

    /// The balance of `user_id`; zero for a user without an account.
    pub open spec fn balance(self, user_id: i64) -> nat {
        if self.accounts.contains_key(user_id) {
            self.accounts[user_id].balance
        } else {
            0
        }
    }

    /// Whether the store commits a debit of `coins` from `user_id` together
    /// with `record`: the account is there and holds as much, and the key of
    /// the record is free.
    pub open spec fn admits(self, user_id: i64, coins: nat, record: PendingView) -> bool {
        &&& self.accounts.contains_key(user_id)
        &&& self.accounts[user_id].balance >= coins
        &&& !self.pending.contains_key(record.fingerprint)
    }

    /// The store after a debit of `coins` from `user_id` was committed
    /// together with `record`.
    pub open spec fn debited(self, user_id: i64, coins: nat, record: PendingView) -> StoreView {
        StoreView {
            accounts: self.accounts.insert(user_id, self.accounts[user_id].debited(coins)),
            pending: self.pending.insert(record.fingerprint, record),
        }
    }

    /// The store after the record under `fingerprint` was dropped.
    pub open spec fn settled(self, fingerprint: Fingerprint) -> StoreView {
        StoreView { accounts: self.accounts, pending: self.pending.remove(fingerprint) }
    }
}

/// What the saga expects of its driver: whether `event` is an answer that
/// may be given to `action` by a store in the state `before`, leaving it in
/// the state `after`. A store may fail at anything it is asked; a failure
/// changes nothing. A debit is committed only where it is admitted. The
/// subscription service may answer anything, and touches no store. Nothing
/// answers the last action.
pub open spec fn answers(before: StoreView, action: ActionView, event: EventView, after: StoreView) -> bool {
    match action {
        ActionView::FindPending { fingerprint } => {
            &&& after == before
            &&& (event is StoreFailed || event == EventView::Pending { record: before.record(fingerprint) })
        },
        ActionView::LockAccount { user_id } => {
            &&& after == before
            &&& (event is StoreFailed || event == EventView::AccountLocked { account: before.account(user_id) })
        },
        ActionView::CommitDebit { user_id, coins, record } => {
            ||| event is StoreFailed && after == before
            ||| {
                &&& event is DebitCommitted
                &&& before.admits(user_id, coins, record)
                &&& after == before.debited(user_id, coins, record)
            }
        },
        ActionView::Settle { fingerprint } => {
            ||| event is StoreFailed && after == before
            ||| event is Settled && after == before.settled(fingerprint)
        },
        ActionView::Extend { .. } => after == before && event is Extension,
        ActionView::Finish { .. } => false,
    }
}

/// The detail with which a store refuses a debit that it does not admit.
pub open spec fn refused() -> Seq<char> {
    "debit refused"@
}

/// The answer of a store that fails at nothing it can do, where the
/// subscription service answers `result`: the event and the state after.
/// The last action of a saga has no answer.
pub open spec fn faithful(before: StoreView, action: ActionView, result: ResultView) -> Option<
    (EventView, StoreView),
> {
    match action {
        ActionView::FindPending { fingerprint } => Some(
            (EventView::Pending { record: before.record(fingerprint) }, before),
        ),
        ActionView::LockAccount { user_id } => Some(
            (EventView::AccountLocked { account: before.account(user_id) }, before),
        ),
        ActionView::CommitDebit { user_id, coins, record } => if before.admits(user_id, coins, record) {
            Some((EventView::DebitCommitted, before.debited(user_id, coins, record)))
        } else {
            Some((EventView::StoreFailed { detail: refused() }, before))
        },
        ActionView::Settle { fingerprint } => Some((EventView::Settled, before.settled(fingerprint))),
        ActionView::Extend { .. } => Some((EventView::Extension { result }, before)),
        ActionView::Finish { .. } => None,
    }
}

/// A store that fails at nothing answers as the saga expects.
pub proof fn lemma_faithful_answers(before: StoreView, action: ActionView, result: ResultView)
    ensures
        faithful(before, action, result) is Some <==> !(action is Finish),
        faithful(before, action, result) matches Some((event, after)) ==> answers(
            before,
            action,
            event,
            after,
        ),
{
}

/// An answer leaves a well-formed store well formed.
pub proof fn lemma_answers_keep_wf(before: StoreView, action: ActionView, event: EventView, after: StoreView)
    requires
        before.wf(),
        answers(before, action, event, after),
    ensures
        after.wf(),
{
}

/// A store in memory: a ledger and a guard.
pub struct Store {
    pub ledger: Ledger,
    pub guard: Guard,
}

impl View for Store {
    type V = StoreView;

    open spec fn view(&self) -> StoreView {
        StoreView { accounts: self.ledger@, pending: self.guard@ }
    }
}

impl Store {
    /// The store is well formed when its ledger and its guard are.
    pub open spec fn wf(&self) -> bool {
        self.ledger.wf() && self.guard.wf()
    }

    /// The state of a well-formed store is well formed.
    pub proof fn lemma_view_wf(&self)
        requires
            self.wf(),
        ensures
            self@.wf(),
    {
        assert forall|u: i64| #[trigger] self@.accounts.contains_key(u) implies self@.accounts[u].user_id
            == u by {
            self.ledger.lemma_filed(u);
        }
        assert forall|f: Fingerprint| #[trigger] self@.pending.contains_key(f) implies self@.pending[f].fingerprint
            == f by {
            self.guard.lemma_filed(f);
        }
    }

    /// A store without accounts or records.
    pub fn new() -> (s: Store)
        ensures
            s.wf(),
            s@.accounts == Map::<i64, AccountView>::empty(),
            s@.pending == Map::<Fingerprint, PendingView>::empty(),
    {
        Store { ledger: Ledger::new(), guard: Guard::new() }
    }

    /// Takes `coins` from the balance of `user_id` and keeps `record`, both
    /// or neither: the debit is refused, and nothing changes, unless the
    /// account holds as much and the key of the record is free.
    pub fn commit_debit(&mut self, user_id: i64, coins: u64, record: PendingRedemption) -> (event: Event)
        requires
            old(self).wf(),
        ensures
            final(self).wf(),
            old(self)@.admits(user_id, coins as nat, record@) ==> event@ is DebitCommitted && final(self)@
                == old(self)@.debited(user_id, coins as nat, record@),
            !old(self)@.admits(user_id, coins as nat, record@) ==> event@ == (EventView::StoreFailed {
                detail: refused(),
            }) && final(self)@ == old(self)@,
    {
        if self.guard.find(record.fingerprint).is_some() {
            return Event::StoreFailed { detail: "debit refused".to_string() };
        }
        match self.ledger.debit(user_id, coins) {
            Ok(_) => {
                let _ = self.guard.record(record);
                Event::DebitCommitted
            },
            Err(_) => Event::StoreFailed { detail: "debit refused".to_string() },
        }
    }

    /// Answers `action` as a store that fails at nothing it can do, with
    /// `result` for what the subscription service achieves if it is asked.
    /// The last action of a saga has no answer: it gives the outcome.
    pub fn perform(&mut self, action: Action, result: ExtensionResult) -> (answer: Result<
        Event,
        RedemptionOutcome,
    >)
        requires
            old(self).wf(),
        ensures
            final(self).wf(),
            match answer {
                Ok(event) => faithful(old(self)@, action@, result@) == Some((event@, final(self)@)),
                Err(outcome) => action@ is Finish && outcome@ == action@->Finish_outcome && final(self)@ == old(
                    self,
                )@,
            },
    {
        match action {
            Action::FindPending { fingerprint } => Ok(Event::Pending { record: self.guard.find(fingerprint) }),
            Action::LockAccount { user_id } => Ok(Event::AccountLocked { account: self.ledger.read(user_id) }),
            Action::CommitDebit { user_id, coins, record } => Ok(self.commit_debit(user_id, coins, record)),
            Action::Settle { fingerprint } => {
                let _ = self.guard.settle(fingerprint);
                Ok(Event::Settled)
            },
            Action::Extend { .. } => Ok(Event::Extension { result }),
            Action::Finish { outcome, .. } => Err(outcome),
        }
    }
}

} // verus!
