//! What holds of every redemption: how balances follow outcomes, that a
//! replay never debits twice, and that concurrent redemptions never
//! overdraw an account.

use vstd::prelude::*;
use crate::coordinator::redeemed;
use crate::execution::{
    interleaved, lawful, lawful_interleaving, lemma_interleaving_is_in_step, lemma_lawful_is_sound, reached,
    taken, Answer, Turn,
};
use crate::extender::ResultView;
use crate::outcome::{FailStage, OutcomeView};
use crate::saga::{EventView, Redemption, StateView};
use crate::store::StoreView;

verus! {

/// The price of a valid request under a valid configuration is positive.
pub proof fn lemma_price_is_positive(r: Redemption)
    requires
        r.cfg.wf(),
        r.request.valid(),
    ensures
        r.request.cost(r.cfg) > 0,
{
    assert(r.request.days as int * r.cfg.unit_price as int > 0) by (nonlinear_arith)
        requires
            r.request.days as int > 0,
            r.cfg.unit_price as int > 0,
    ;
}

/// Every step of a saga that has not ended brings it nearer to its end: a
/// saga ends after at most five answers. A saga that has ended stays as it
/// is.
pub proof fn law_saga_ends(r: Redemption, state: StateView, event: EventView)
    ensures
        !(state is Finished) ==> r.step(state, event).0.rank() < state.rank(),
        state is Finished ==> r.step(state, event).0 == state,
        r.step(state, event).1 is Finish <==> r.step(state, event).0 is Finished,
        r.begin().1 is Finish <==> r.begin().0 is Finished,
{
}

/// The extension is asked for only once the debit is known to be committed:
/// on the store's confirmation of the commit, or on the guard's record of a
/// debit made before. No transaction is open while the subscription service
/// is asked, and a saga that ends while one is open has it rolled back.
pub proof fn law_debit_commits_before_extension(r: Redemption, state: StateView, event: EventView)
    ensures
        r.step(state, event).1 is Extend ==> {
            ||| state is AwaitingCommit && event is DebitCommitted
            ||| state is AwaitingGuard && event is Pending && event->record is Some
        },
        r.step(state, event).1 is Extend ==> !r.step(state, event).0.holds_lock(),
        !(r.begin().1 is Extend),
        state.holds_lock() && r.step(state, event).0 is Finished ==> r.step(state, event).1->Finish_release,
{
}

/// The subscription service is asked at most once in a saga: once the
/// extension has been asked for, no step asks for it again, and none asks
/// for a debit.
pub proof fn law_extension_is_asked_once(r: Redemption, state: StateView, event: EventView)
    requires
        state is AwaitingExtension || state is AwaitingSettle || state is Finished,
    ensures
        !(r.step(state, event).1 is Extend),
        !(r.step(state, event).1 is CommitDebit),
{
}

/// For a valid request that the guard has no record of, on a store that
/// fails at nothing: the balance of the user ends lower by the price exactly
/// when the redemption is completed or fails at an extension stage, and ends
/// as it began exactly when the redemption is rejected or fails at the
/// store. No other account changes, and a completed redemption reports the
/// balance the user is left with.
pub proof fn law_balance_follows_outcome(store: StoreView, r: Redemption, result: ResultView)
    requires
        store.wf(),
        r.cfg.wf(),
        r.request.valid(),
        !store.pending.contains_key(r.fingerprint()),
    ensures
        ({
            let (after, outcome) = redeemed(store, r, result);
            let user = r.request.user_id;
            let price = r.request.cost(r.cfg);
            &&& after.balance(user) == store.balance(user) - price <==> outcome.spent()
            &&& after.balance(user) == store.balance(user) <==> !outcome.spent()
            &&& outcome.spent() <==> outcome is Completed || (outcome is Failed && outcome->stage
                != FailStage::Store)
            &&& !outcome.spent() <==> outcome is Rejected || (outcome is Failed && outcome->stage
                == FailStage::Store)
            &&& forall|u: i64| u != user ==> after.account(u) == store.account(u)
            &&& outcome matches OutcomeView::Completed { new_balance, .. } ==> new_balance == after.balance(user)
        }),
{
    lemma_price_is_positive(r);
}

/// The same of every execution against a store that may fail at anything it
/// is asked: for a valid request that the guard has no record of, once the
/// saga has ended, the balance of the user is lower by the price exactly when
/// the redemption is completed or failed at an extension stage, and is what
/// it was exactly when the redemption is rejected or failed at the store. A
/// redemption that ends without the coins spent leaves the store as it found
/// it, and no execution touches another account.
pub proof fn law_execution_balance_follows_outcome(origin: StoreView, r: Redemption, trace: Seq<Answer>)
    requires
        origin.wf(),
        r.cfg.wf(),
        r.request.valid(),
        !origin.pending.contains_key(r.fingerprint()),
        lawful(origin, r, trace),
        reached(origin, r, trace).1 is Finished,
    ensures
        ({
            let (store, state, _) = reached(origin, r, trace);
            let outcome = state->Finished_outcome;
            let user = r.request.user_id;
            let price = r.request.cost(r.cfg);
            &&& store.balance(user) == origin.balance(user) - price <==> outcome.spent()
            &&& store.balance(user) == origin.balance(user) <==> !outcome.spent()
            &&& outcome.spent() <==> outcome is Completed || (outcome is Failed && outcome->stage
                != FailStage::Store)
            &&& !outcome.spent() <==> outcome is Rejected || (outcome is Failed && outcome->stage
                == FailStage::Store)
            &&& !outcome.spent() ==> store == origin
            &&& forall|u: i64| u != user ==> store.account(u) == origin.account(u)
        }),
{
    lemma_price_is_positive(r);
    lemma_lawful_is_sound(origin, r, trace);
}

/// No execution of a redemption that the guard has on record changes any
/// account, at any point and whatever the store and the subscription
/// service answer: a replay never debits.
pub proof fn law_execution_replay_never_debits(origin: StoreView, r: Redemption, trace: Seq<Answer>)
    requires
        origin.wf(),
        origin.pending.contains_key(r.fingerprint()),
        lawful(origin, r, trace),
    ensures
        reached(origin, r, trace).0.accounts == origin.accounts,
        trace.len() <= 5,
{
    lemma_lawful_is_sound(origin, r, trace);
}

/// After a redemption has failed at an extension stage, a replay under the
/// same key does not debit the account a second time, whatever the
/// subscription service answers; and once the service grants the extension,
/// the replay is completed, with the balance that the one debit left, and
/// the guard drops its record.
pub proof fn law_replay_debits_once(
    store: StoreView,
    first: Redemption,
    failed: ResultView,
    replay: Redemption,
    result: ResultView,
)
    requires
        store.wf(),
        replay.fingerprint() == first.fingerprint(),
        redeemed(store, first, failed).1 is Failed,
    ensures
        ({
            let key = first.fingerprint();
            let (between, _) = redeemed(store, first, failed);
            let (after, outcome) = redeemed(between, replay, result);
            &&& between.pending.contains_key(key)
            &&& after.accounts == between.accounts
            &&& result is Granted ==> {
                &&& outcome == OutcomeView::Completed {
                    new_balance: between.pending[key].balance_after,
                    subscription_end: result->subscription_end,
                }
                &&& !after.pending.contains_key(key)
            }
        }),
{
}

/// Two redemptions for one user, one after the other as the lock on the
/// account orders them, whose prices together exceed the balance: they are
/// not both debited. Each debit that is made is covered by the balance it is
/// taken from, so the balance never goes below zero.
pub proof fn law_serial_redemptions_never_overdraw(
    store: StoreView,
    a: Redemption,
    ra: ResultView,
    b: Redemption,
    rb: ResultView,
)
    requires
        store.wf(),
        a.cfg.wf(),
        b.cfg.wf(),
        a.request.valid(),
        b.request.valid(),
        a.request.user_id == b.request.user_id,
        a.fingerprint() != b.fingerprint(),
        !store.pending.contains_key(a.fingerprint()),
        !store.pending.contains_key(b.fingerprint()),
    ensures
        ({
            let user = a.request.user_id;
            let (between, first) = redeemed(store, a, ra);
            let (after, second) = redeemed(between, b, rb);
            let paid_a = if first.spent() { a.request.cost(a.cfg) } else { 0 };
            let paid_b = if second.spent() { b.request.cost(b.cfg) } else { 0 };
            &&& after.balance(user) == store.balance(user) - paid_a - paid_b
            &&& paid_a + paid_b <= store.balance(user)
            &&& a.request.cost(a.cfg) + b.request.cost(b.cfg) > store.balance(user) ==> !(first.spent()
                && second.spent())
        }),
{
    lemma_price_is_positive(a);
    lemma_price_is_positive(b);
}

/// Two redemptions for one user that run at the same time, their steps
/// answered in any order by a store that may fail at anything: the balance
/// is at every moment what it was less the prices of the debits that were
/// committed, so it never goes below zero; where the two prices together
/// exceed the balance, the two are not both debited; and a saga that has
/// ended reports the coins spent exactly when its debit was committed. No
/// other account changes.
pub proof fn law_concurrent_redemptions_never_overdraw(
    origin: StoreView,
    a: Redemption,
    b: Redemption,
    turns: Seq<Turn>,
)
    requires
        a.request.user_id == b.request.user_id,
        a.fingerprint() != b.fingerprint(),
        !origin.pending.contains_key(a.fingerprint()),
        !origin.pending.contains_key(b.fingerprint()),
        lawful_interleaving(origin, a, b, turns),
    ensures
        ({
            let p = interleaved(origin, a, b, turns);
            let user = a.request.user_id;
            let price_a = a.request.cost(a.cfg);
            let price_b = b.request.cost(b.cfg);
            &&& p.store.balance(user) == origin.balance(user) - taken(a, p.first_paid, user) - taken(
                b,
                p.second_paid,
                user,
            )
            &&& taken(a, p.first_paid, user) + taken(b, p.second_paid, user) <= origin.balance(user)
            &&& price_a + price_b > origin.balance(user) ==> !(p.first_paid && p.second_paid)
            &&& p.first.0 matches StateView::Finished { outcome } ==> outcome.spent() == p.first_paid
            &&& p.second.0 matches StateView::Finished { outcome } ==> outcome.spent() == p.second_paid
            &&& forall|u: i64| u != user ==> p.store.balance(u) == origin.balance(u)
        }),
{
    lemma_interleaving_is_in_step(origin, a, b, turns);
    let p = interleaved(origin, a, b, turns);
    let user = a.request.user_id;
    assert(p.store.balance(user) == origin.balance(user) - taken(a, p.first_paid, user) - taken(
        b,
        p.second_paid,
        user,
    ));
    assert forall|u: i64| u != user implies p.store.balance(u) == origin.balance(u) by {
        assert(p.store.balance(u) == origin.balance(u) - taken(a, p.first_paid, u) - taken(
            b,
            p.second_paid,
            u,
        ));
    }
}

} // verus!
