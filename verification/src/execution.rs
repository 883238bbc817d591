//! Executions of a saga against any store that keeps the store contract:
//! one that may fail at anything it is asked, at any time.

use vstd::prelude::*;
use crate::saga::{ActionView, EventView, Redemption, StateView};
use crate::store::{answers, StoreView};

verus! {

/// One answered action: the answer, and the state it left the store in.
pub struct Answer {
    pub event: EventView,
    pub after: StoreView,
}

/// Where a saga that began on the store `origin` stands after the answers
/// of `trace`: the state of the store, the state of the saga, and the action
/// asked for.
pub open spec fn reached(origin: StoreView, r: Redemption, trace: Seq<Answer>) -> (
    StoreView,
    StateView,
    ActionView,
)
    decreases trace.len(),
{
    if trace.len() == 0 {
        (origin, r.begin().0, r.begin().1)
    } else {
        let (_, state, _) = reached(origin, r, trace.drop_last());
        let (next, asked) = r.step(state, trace.last().event);
        (trace.last().after, next, asked)
    }
}

/// Whether each answer of `trace` is one that the store contract allows to
/// the action it answers.
pub open spec fn lawful(origin: StoreView, r: Redemption, trace: Seq<Answer>) -> bool
    decreases trace.len(),
{
    trace.len() == 0 || {
        let (store, _, action) = reached(origin, r, trace.drop_last());
        &&& lawful(origin, r, trace.drop_last())
        &&& answers(store, action, trace.last().event, trace.last().after)
    }
}

/// The store once the redemption is paid for: with the price taken from the
/// user's balance where the guard had no record of the redemption, and as it
/// was where the guard had one.
pub open spec fn paid(origin: StoreView, r: Redemption) -> StoreView {
    let user = r.request.user_id;
    if origin.pending.contains_key(r.fingerprint()) {
        origin
    } else {
        StoreView {
            accounts: origin.accounts.insert(
                user,
                origin.accounts[user].debited(r.request.cost(r.cfg) as nat),
            ),
            pending: origin.pending,
        }
    }
}

/// Whether the store and the saga stand as a lawful execution leaves them.
pub open spec fn sound(
    origin: StoreView,
    r: Redemption,
    store: StoreView,
    state: StateView,
    action: ActionView,
) -> bool {
    let user = r.request.user_id;
    let key = r.fingerprint();
    let fresh = !origin.pending.contains_key(key);
    let covered = fresh ==> origin.accounts.contains_key(user) && origin.accounts[user].balance
        >= r.request.cost(r.cfg);
    match state {
        StateView::AwaitingGuard => {
            &&& store == origin
            &&& action == ActionView::FindPending { fingerprint: key }
        },
        StateView::AwaitingAccount => {
            &&& store == origin
            &&& fresh
            &&& action == ActionView::LockAccount { user_id: user }
        },
        StateView::AwaitingCommit { record } => {
            &&& store == origin
            &&& fresh
            &&& action == ActionView::CommitDebit {
                user_id: user,
                coins: r.request.cost(r.cfg) as nat,
                record,
            }
        },
        StateView::AwaitingExtension { .. } => {
            &&& action is Extend
            &&& covered
            &&& store.accounts == paid(origin, r).accounts
        },
        StateView::AwaitingSettle { .. } => {
            &&& action is Settle
            &&& covered
            &&& store.accounts == paid(origin, r).accounts
        },
        StateView::Finished { outcome } => {
            &&& action is Finish
            &&& action->Finish_outcome == outcome
            &&& if outcome.spent() {
                covered && store.accounts == paid(origin, r).accounts
            } else {
                store == origin
            }
        },
    }
}

/// A lawful execution leaves the store and the saga sound, and has at most
/// five answers.
pub proof fn lemma_lawful_is_sound(origin: StoreView, r: Redemption, trace: Seq<Answer>)
    requires
        origin.wf(),
        lawful(origin, r, trace),
    ensures
        ({
            let (store, state, action) = reached(origin, r, trace);
            &&& sound(origin, r, store, state, action)
            &&& store.wf()
            &&& trace.len() + state.rank() <= 5
        }),
    decreases trace.len(),
{
    if trace.len() > 0 {
        lemma_lawful_is_sound(origin, r, trace.drop_last());
    }
}

/// One answered action in an interleaving of two sagas: which saga was
/// answered, the answer, and the state it left the store in.
pub struct Turn {
    pub second: bool,
    pub event: EventView,
    pub after: StoreView,
}

/// Where two sagas on one store stand.
pub struct Pair {
    pub store: StoreView,
    /// The state of the first saga and the action it asked for.
    pub first: (StateView, ActionView),
    /// The state of the second saga and the action it asked for.
    pub second: (StateView, ActionView),
    /// Whether the store has committed the debit of the first saga.
    pub first_paid: bool,
    /// Whether the store has committed the debit of the second saga.
    pub second_paid: bool,
}

/// Whether `event` tells a saga that asked for `action` that its debit is
/// committed.
pub open spec fn commits(action: ActionView, event: EventView) -> bool {
    action is CommitDebit && event is DebitCommitted
}

/// Where the sagas of `a` and `b`, begun together on the store `origin`,
/// stand after the turns of `turns`, taken in any order.
pub open spec fn interleaved(origin: StoreView, a: Redemption, b: Redemption, turns: Seq<Turn>) -> Pair
    decreases turns.len(),
{
    if turns.len() == 0 {
        Pair { store: origin, first: a.begin(), second: b.begin(), first_paid: false, second_paid: false }
    } else {
        let before = interleaved(origin, a, b, turns.drop_last());
        let turn = turns.last();
        if turn.second {
            Pair {
                store: turn.after,
                second: b.step(before.second.0, turn.event),
                second_paid: before.second_paid || commits(before.second.1, turn.event),
                ..before
            }
        } else {
            Pair {
                store: turn.after,
                first: a.step(before.first.0, turn.event),
                first_paid: before.first_paid || commits(before.first.1, turn.event),
                ..before
            }
        }
    }
}

/// Whether each turn of `turns` answers the action that its saga asked for
/// last as the store contract allows.
pub open spec fn lawful_interleaving(origin: StoreView, a: Redemption, b: Redemption, turns: Seq<Turn>) -> bool
    decreases turns.len(),
{
    turns.len() == 0 || {
        let before = interleaved(origin, a, b, turns.drop_last());
        let turn = turns.last();
        let asked = if turn.second {
            before.second.1
        } else {
            before.first.1
        };
        &&& lawful_interleaving(origin, a, b, turns.drop_last())
        &&& answers(before.store, asked, turn.event, turn.after)
    }
}

/// What the redemption `r` has taken from the balance of `user`.
pub open spec fn taken(r: Redemption, is_paid: bool, user: i64) -> int {
    if is_paid && r.request.user_id == user {
        r.request.cost(r.cfg)
    } else {
        0
    }
}

/// Whether one saga of an interleaving stands as a lawful interleaving
/// leaves it: it has paid exactly when its debit was committed, and before
/// that the guard has no record under its key.
pub open spec fn in_step(r: Redemption, store: StoreView, state: StateView, action: ActionView, is_paid: bool) -> bool {
    let user = r.request.user_id;
    let key = r.fingerprint();
    match state {
        StateView::AwaitingGuard => {
            &&& action == ActionView::FindPending { fingerprint: key }
            &&& !is_paid
            &&& !store.pending.contains_key(key)
        },
        StateView::AwaitingAccount => {
            &&& action == ActionView::LockAccount { user_id: user }
            &&& !is_paid
            &&& !store.pending.contains_key(key)
        },
        StateView::AwaitingCommit { record } => {
            &&& action == ActionView::CommitDebit {
                user_id: user,
                coins: r.request.cost(r.cfg) as nat,
                record,
            }
            &&& r.request.cost(r.cfg) >= 0
            &&& record.fingerprint == key
            &&& !is_paid
            &&& !store.pending.contains_key(key)
        },
        StateView::AwaitingExtension { record } => {
            &&& action is Extend
            &&& record.fingerprint == key
            &&& is_paid
        },
        StateView::AwaitingSettle { record, .. } => {
            &&& action == ActionView::Settle { fingerprint: key }
            &&& is_paid
        },
        StateView::Finished { outcome } => {
            &&& action is Finish
            &&& outcome.spent() == is_paid
        },
    }
}

/// A lawful interleaving of two redemptions under different keys, neither
/// on the guard's record at the outset, keeps both sagas in step and every
/// balance equal to what it was less what the two have taken from it.
pub proof fn lemma_interleaving_is_in_step(origin: StoreView, a: Redemption, b: Redemption, turns: Seq<Turn>)
    requires
        a.fingerprint() != b.fingerprint(),
        !origin.pending.contains_key(a.fingerprint()),
        !origin.pending.contains_key(b.fingerprint()),
        lawful_interleaving(origin, a, b, turns),
    ensures
        ({
            let p = interleaved(origin, a, b, turns);
            &&& in_step(a, p.store, p.first.0, p.first.1, p.first_paid)
            &&& in_step(b, p.store, p.second.0, p.second.1, p.second_paid)
            &&& forall|u: i64|
                p.store.balance(u) == origin.balance(u) - taken(a, p.first_paid, u) - taken(
                    b,
                    p.second_paid,
                    u,
                )
        }),
    decreases turns.len(),
{
    if turns.len() > 0 {
        lemma_interleaving_is_in_step(origin, a, b, turns.drop_last());
        let before = interleaved(origin, a, b, turns.drop_last());
        let p = interleaved(origin, a, b, turns);
        assert forall|u: i64|
            p.store.balance(u) == origin.balance(u) - taken(a, p.first_paid, u) - taken(
                b,
                p.second_paid,
                u,
            ) by {
            assert(before.store.balance(u) == origin.balance(u) - taken(a, before.first_paid, u) - taken(
                b,
                before.second_paid,
                u,
            ));
        }
    }
}

} // verus!
