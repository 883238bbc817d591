//! The redemption coordinator: one request in, one authoritative outcome out.
//!
//! Against a store in memory the coordinator runs a saga to its end itself.
//! What it comes to is stated in closed form by [`redeemed`], and is one of
//! the executions that the saga has against any store that keeps the store
//! contract.

use vstd::prelude::*;
use crate::config::Config;
use crate::execution::{lawful, reached, Answer};
use crate::extender::{interpret, reply_result, ExtensionReply, ExtensionResult, ResultView};
use crate::guard::PendingView;
use crate::outcome::{FailStage, OutcomeView, RedemptionOutcome, RejectReason};
use crate::request::RedemptionRequest;
use crate::saga::{ActionView, Redemption, Saga, StateView};
use crate::store::{faithful, lemma_answers_keep_wf, lemma_faithful_answers, Store, StoreView};

verus! {

/// How a redemption whose debit is recorded in `record` ends, given what the
/// call to the subscription service achieved. A granted extension finishes
/// the redemption and the guard drops the record. A failed one leaves the
/// store as it is: the debit stands and the record stays for a retry.
pub open spec fn extension_outcome(store: StoreView, record: PendingView, result: ResultView) -> (
    StoreView,
    OutcomeView,
) {
    match result {
        ResultView::Granted { subscription_end } => (
            store.settled(record.fingerprint),
            OutcomeView::Completed { new_balance: record.balance_after, subscription_end },
        ),
        ResultView::CallFailed { detail } => (
            store,
            OutcomeView::Failed { stage: FailStage::Extension, detail },
        ),
        ResultView::BadAnswer { detail } => (
            store,
            OutcomeView::Failed { stage: FailStage::ExtensionParse, detail },
        ),
    }
}

/// What one redemption does to a store that fails at nothing, and how it
/// ends, where `result` is what the subscription service achieves if it is
/// asked.
///
/// A request for no days is rejected. A redemption that the guard has on
/// record is not debited again: it resumes at the extension. A new
/// redemption is rejected for an unknown user and for a balance below the
/// price; else the price is debited, the guard records the redemption, and
/// the extension is asked for.
pub open spec fn redeemed(store: StoreView, r: Redemption, result: ResultView) -> (StoreView, OutcomeView) {
    let user = r.request.user_id;
    let key = r.fingerprint();
    if !r.request.valid() {
        (store, OutcomeView::Rejected { reason: RejectReason::InvalidDays })
    } else if store.pending.contains_key(key) {
        extension_outcome(store, store.pending[key], result)
    } else if !store.accounts.contains_key(user) {
        (store, OutcomeView::Rejected { reason: RejectReason::UnknownUser })
    } else if store.accounts[user].balance < r.request.cost(r.cfg) {
        (store, OutcomeView::Rejected { reason: RejectReason::InsufficientBalance })
    } else {
        let coins = r.request.cost(r.cfg) as nat;
        let record = r.record_for(store.accounts[user], coins);
        extension_outcome(store.debited(user, coins, record), record, result)
    }
}

/// Whether a saga that began on the store `origin` and now stands at
/// `state`, with `action` asked for and the store at `store`, is on its way
/// to `redeemed(origin, r, result)`.
spec fn on_course(
    origin: StoreView,
    r: Redemption,
    result: ResultView,
    store: StoreView,
    state: StateView,
    action: ActionView,
) -> bool {
    let user = r.request.user_id;
    let key = r.fingerprint();
    match state {
        StateView::AwaitingGuard => {
            &&& store == origin
            &&& r.request.valid()
            &&& action == ActionView::FindPending { fingerprint: key }
        },
        StateView::AwaitingAccount => {
            &&& store == origin
            &&& r.request.valid()
            &&& !origin.pending.contains_key(key)
            &&& action == ActionView::LockAccount { user_id: user }
        },
        StateView::AwaitingCommit { record } => {
            &&& store == origin
            &&& r.request.valid()
            &&& !origin.pending.contains_key(key)
            &&& origin.accounts.contains_key(user)
            &&& origin.accounts[user].balance >= r.request.cost(r.cfg)
            &&& record == r.record_for(origin.accounts[user], r.request.cost(r.cfg) as nat)
            &&& action == ActionView::CommitDebit {
                user_id: user,
                coins: r.request.cost(r.cfg) as nat,
                record,
            }
        },
        StateView::AwaitingExtension { record } => {
            &&& action is Extend
            &&& extension_outcome(store, record, result) == redeemed(origin, r, result)
        },
        StateView::AwaitingSettle { record, subscription_end } => {
            &&& action == ActionView::Settle { fingerprint: record.fingerprint }
            &&& (
                store.settled(record.fingerprint),
                OutcomeView::Completed { new_balance: record.balance_after, subscription_end },
            ) == redeemed(origin, r, result)
        },
        StateView::Finished { outcome } => {
            &&& action is Finish
            &&& action->Finish_outcome == outcome
            &&& (store, outcome) == redeemed(origin, r, result)
        },
    }
}

proof fn lemma_begins_on_course(origin: StoreView, r: Redemption, result: ResultView)
    ensures
        on_course(origin, r, result, origin, r.begin().0, r.begin().1),
{
}

proof fn lemma_stays_on_course(
    origin: StoreView,
    r: Redemption,
    result: ResultView,
    store: StoreView,
    state: StateView,
    action: ActionView,
)
    requires
        origin.wf(),
        store.wf(),
        on_course(origin, r, result, store, state, action),
        !(state is Finished),
    ensures
        faithful(store, action, result) matches Some((event, after)) && ({
            let (next, asked) = r.step(state, event);
            on_course(origin, r, result, after, next, asked) && next.rank() < state.rank()
        }),
{
}

/// The execution in which a store that fails at nothing answers the saga,
/// where `result` is what the subscription service achieves: its first `n`
/// answers, or all of them if the saga ends before.
pub open spec fn faithful_trace(origin: StoreView, r: Redemption, result: ResultView, n: nat) -> Seq<Answer>
    decreases n,
{
    if n == 0 {
        Seq::empty()
    } else {
        let trace = faithful_trace(origin, r, result, (n - 1) as nat);
        let (store, _, action) = reached(origin, r, trace);
        match faithful(store, action, result) {
            Some((event, after)) => trace.push(Answer { event, after }),
            None => trace,
        }
    }
}

proof fn lemma_faithful_trace_on_course(origin: StoreView, r: Redemption, result: ResultView, n: nat)
    requires
        origin.wf(),
        n <= 5,
    ensures
        ({
            let trace = faithful_trace(origin, r, result, n);
            let (store, state, action) = reached(origin, r, trace);
            &&& lawful(origin, r, trace)
            &&& store.wf()
            &&& on_course(origin, r, result, store, state, action)
            &&& state.rank() + n <= 5
        }),
    decreases n,
{
    if n == 0 {
        lemma_begins_on_course(origin, r, result);
    } else {
        lemma_faithful_trace_on_course(origin, r, result, (n - 1) as nat);
        let trace = faithful_trace(origin, r, result, (n - 1) as nat);
        let (store, state, action) = reached(origin, r, trace);
        if let Some((event, after)) = faithful(store, action, result) {
            let longer = trace.push(Answer { event, after });
            assert(longer.drop_last() =~= trace);
            lemma_faithful_answers(store, action, result);
            lemma_answers_keep_wf(store, action, event, after);
            lemma_stays_on_course(origin, r, result, store, state, action);
        }
    }
}

/// What `redeemed` tells is what an execution comes to: the one in which the
/// store fails at nothing. It is lawful, it ends the saga within five
/// answers, and it leaves the store and the outcome that `redeemed` gives.
pub proof fn lemma_redeemed_is_an_execution(origin: StoreView, r: Redemption, result: ResultView)
    requires
        origin.wf(),
    ensures
        ({
            let trace = faithful_trace(origin, r, result, 5);
            let (store, state, _) = reached(origin, r, trace);
            &&& lawful(origin, r, trace)
            &&& state is Finished
            &&& (store, state->Finished_outcome) == redeemed(origin, r, result)
        }),
{
    lemma_faithful_trace_on_course(origin, r, result, 5);
}

/// Redeems `request` against `store`, given what the call to the
/// subscription service achieves if it is made.
pub fn redeem_given(
    store: &mut Store,
    cfg: Config,
    request: RedemptionRequest,
    nonce: u64,
    now: i64,
    result: ExtensionResult,
) -> (outcome: RedemptionOutcome)
    requires
        old(store).wf(),
    ensures
        final(store).wf(),
        (final(store)@, outcome@) == redeemed(old(store)@, Redemption { cfg, request, nonce, now }, result@),
{
    let ghost origin = store@;
    let ghost r = Redemption { cfg, request, nonce, now };
    proof {
        store.lemma_view_wf();
        lemma_begins_on_course(origin, r, result@);
    }
    let (mut saga, mut action) = Saga::begin(cfg, request, nonce, now);
    loop
        invariant
            store.wf(),
            origin.wf(),
            origin == old(store)@,
            r == (Redemption { cfg, request, nonce, now }),
            saga.redemption == r,
            on_course(origin, r, result@, store@, saga.state@, action@),
        decreases saga.state@.rank(),
    {
        proof {
            store.lemma_view_wf();
            if !(saga.state@ is Finished) {
                lemma_stays_on_course(origin, r, result@, store@, saga.state@, action@);
            }
        }
        match store.perform(action, result.clone()) {
            Ok(event) => {
                let (next, asked) = saga.step(event);
                saga = next;
                action = asked;
            },
            Err(outcome) => {
                return outcome;
            },
        }
    }
}

/// Redeems `request` against `store`, given the reply of the subscription
/// service if it is asked.
pub fn redeem(
    store: &mut Store,
    cfg: Config,
    request: RedemptionRequest,
    nonce: u64,
    now: i64,
    reply: ExtensionReply,
) -> (outcome: RedemptionOutcome)
    requires
        old(store).wf(),
    ensures
        final(store).wf(),
        (final(store)@, outcome@) == redeemed(
            old(store)@,
            Redemption { cfg, request, nonce, now },
            reply_result(reply@),
        ),
{
    redeem_given(store, cfg, request, nonce, now, interpret(reply))
}

} // verus!
