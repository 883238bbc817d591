//! The idempotency guard: the bookkeeping that lets a retried redemption
//! resume after its debit instead of debiting again.

use vstd::prelude::*;
use crate::config::Config;
use crate::request::Fingerprint;

verus! {

/// A checkpoint of the saga, kept with the bookkeeping record.
///
/// The record that the guard keeps is made at `Debited` and stays there
/// until the extension is granted and the record is dropped: a call that
/// fails leaves it as the debit made it. The later checkpoints mark the copy
/// that the saga carries while the call is under way. A record found at any
/// checkpoint tells that the debit was made.
#[derive(Clone, Copy, Debug, PartialEq, Eq, Structural)]
pub enum Stage {
    /// The debit is committed; no extension is known to have been granted.
    Debited,
    /// The extension request has been issued.
    ExtendRequested,
    /// The extension was granted.
    Extended,
}

impl Stage {
    /// The number under which the checkpoint is stored.
    pub open spec fn spec_code(self) -> u8 {
        match self {
            Stage::Debited => 0,
            Stage::ExtendRequested => 1,
            Stage::Extended => 2,
        }
    }

    /// The checkpoint stored under `code`, if there is one.
    pub open spec fn spec_from_code(code: u8) -> Option<Stage> {
        if code == 0 {
            Some(Stage::Debited)
        } else if code == 1 {
            Some(Stage::ExtendRequested)
        } else if code == 2 {
            Some(Stage::Extended)
        } else {
            None
        }
    }

    /// The number under which the checkpoint is stored. Reading it back with
    /// [`Stage::from_code`] gives the checkpoint again.
    pub fn code(self) -> (c: u8)
        ensures
            c == self.spec_code(),
            Self::spec_from_code(c) == Some(self),
    {
        match self {
            Stage::Debited => 0,
            Stage::ExtendRequested => 1,
            Stage::Extended => 2,
        }
    }

    /// The checkpoint stored under `code`, if there is one.
    pub fn from_code(code: u8) -> (s: Option<Stage>)
        ensures
            s == Self::spec_from_code(code),
            s matches Some(stage) ==> stage.spec_code() == code,
    {
        if code == 0 {
            Some(Stage::Debited)
        } else if code == 1 {
            Some(Stage::ExtendRequested)
        } else if code == 2 {
            Some(Stage::Extended)
        } else {
            None
        }
    }
}

/// The bookkeeping of one redemption whose debit is committed and whose
/// extension is not yet known to be finished.
#[derive(Debug, PartialEq, Eq)]
pub struct PendingRedemption {
    pub fingerprint: Fingerprint,
    pub stage: Stage,
    /// When the debit was made, in seconds since the epoch.
    pub created_at: i64,
    /// The coins that were debited.
    pub coins_required: u64,
    /// The balance the debit left.
    pub balance_after: u64,
    /// The plan to extend.
    pub plan: String,
}

/// The mathematical value of a [`PendingRedemption`].
pub struct PendingView {
    pub fingerprint: Fingerprint,
    pub stage: Stage,
    pub created_at: int,
    pub coins_required: nat,
    pub balance_after: nat,
    pub plan: Seq<char>,
}

impl View for PendingRedemption {
    type V = PendingView;

    open spec fn view(&self) -> PendingView {
        PendingView {
            fingerprint: self.fingerprint,
            stage: self.stage,
            created_at: self.created_at as int,
            coins_required: self.coins_required as nat,
            balance_after: self.balance_after as nat,
            plan: self.plan@,
        }
    }
}

impl PendingView {
    /// The same record at another checkpoint.
    pub open spec fn at(self, stage: Stage) -> PendingView {
        PendingView { stage, ..self }
    }

    /// A record is stale when it still stands at the debit and is older than
    /// the window.
    pub open spec fn stale(self, now: int, window: int) -> bool {
        self.stage is Debited && now - self.created_at > window
    }
}

impl Clone for PendingRedemption {
    fn clone(&self) -> (r: Self)
        ensures
            r@ == self@,
    {
        PendingRedemption {
            fingerprint: self.fingerprint,
            stage: self.stage,
            created_at: self.created_at,
            coins_required: self.coins_required,
            balance_after: self.balance_after,
            plan: self.plan.clone(),
        }
    }
}

impl PendingRedemption {
    /// The same record at another checkpoint.
    pub fn at(self, stage: Stage) -> (r: PendingRedemption)
        ensures
            r@ == self@.at(stage),
    {
        PendingRedemption {
            fingerprint: self.fingerprint,
            stage,
            created_at: self.created_at,
            coins_required: self.coins_required,
            balance_after: self.balance_after,
            plan: self.plan,
        }
    }

    /// Tells whether the record still stands at the debit and is older than
    /// `window` seconds at the time `now`.
    pub fn is_stale(&self, now: i64, window: u64) -> (b: bool)
        ensures
            b == self@.stale(now as int, window as int),
    {
        let age: i128 = now as i128 - self.created_at as i128;
        match self.stage {
            Stage::Debited => age > window as i128,
            Stage::ExtendRequested => false,
            Stage::Extended => false,
        }
    }
}

/// What a retry of a redemption should do.
#[derive(Clone, Copy, Debug, PartialEq, Eq, Structural)]
pub enum RetryDecision {
    /// Nothing is recorded under the key: the redemption starts afresh.
    Fresh,
    /// The debit is recorded: the redemption resumes at the extension.
    Resume,
    /// The record is stale: it goes to an operator and is not retried
    /// automatically.
    Escalate,
}

/// What a retry should do, given what the guard holds under the key.
pub open spec fn retry_decision(found: Option<PendingView>, now: int, window: int) -> RetryDecision {
    match found {
        None => RetryDecision::Fresh,
        Some(r) => if r.stale(now, window) {
            RetryDecision::Escalate
        } else {
            RetryDecision::Resume
        },
    }
}

/// Whether some record of `s` has the key `f`.
pub open spec fn holds(s: Seq<PendingRedemption>, f: Fingerprint) -> bool {
    exists|i: int| 0 <= i < s.len() && (#[trigger] s[i]).fingerprint == f
}

/// The place of a record with the key `f`.
spec fn slot(s: Seq<PendingRedemption>, f: Fingerprint) -> int {
    choose|i: int| 0 <= i < s.len() && (#[trigger] s[i]).fingerprint == f
}

/// Whether no two records share a key.
pub open spec fn distinct(s: Seq<PendingRedemption>) -> bool {
    forall|i: int, j: int|
        0 <= i < s.len() && 0 <= j < s.len() && i != j ==> (#[trigger] s[i]).fingerprint != (
        #[trigger] s[j]).fingerprint
}

/// The records of `s` by key.
spec fn table(s: Seq<PendingRedemption>) -> Map<Fingerprint, PendingView> {
    Map::new(|f: Fingerprint| holds(s, f), |f: Fingerprint| s[slot(s, f)]@)
}

proof fn lemma_slot(s: Seq<PendingRedemption>, i: int)
    requires
        distinct(s),
        0 <= i < s.len(),
    ensures
        holds(s, s[i].fingerprint),
        slot(s, s[i].fingerprint) == i,
        table(s).contains_key(s[i].fingerprint),
        table(s)[s[i].fingerprint] == s[i]@,
{
}

proof fn lemma_holds_push(s: Seq<PendingRedemption>, r: PendingRedemption)
    ensures
        forall|f: Fingerprint| #[trigger] holds(s.push(r), f) == (holds(s, f) || f == r.fingerprint),
{
    let t = s.push(r);
    assert forall|f: Fingerprint| #[trigger] holds(t, f) == (holds(s, f) || f == r.fingerprint) by {
        if holds(s, f) {
            assert(t[slot(s, f)] == s[slot(s, f)]);
        }
        if f == r.fingerprint {
            assert(t[s.len() as int] == r);
        }
    }
}

proof fn lemma_push(s: Seq<PendingRedemption>, r: PendingRedemption)
    requires
        distinct(s),
        !holds(s, r.fingerprint),
    ensures
        distinct(s.push(r)),
        table(s.push(r)) == table(s).insert(r.fingerprint, r@),
{
    let t = s.push(r);
    lemma_holds_push(s, r);
    assert forall|f: Fingerprint| holds(t, f) implies #[trigger] table(t)[f] == table(s).insert(
        r.fingerprint,
        r@,
    )[f] by {
        let k = slot(t, f);
        if k < s.len() {
            lemma_slot(s, k);
        }
    }
}

proof fn lemma_remove(s: Seq<PendingRedemption>, i: int)
    requires
        distinct(s),
        0 <= i < s.len(),
    ensures
        distinct(s.remove(i)),
        table(s.remove(i)) == table(s).remove(s[i].fingerprint),
{
    let t = s.remove(i);
    let gone = s[i].fingerprint;
    assert forall|f: Fingerprint| #[trigger] holds(t, f) == (holds(s, f) && f != gone) by {
        if holds(s, f) && f != gone {
            let k = slot(s, f);
            let moved = if k < i { k } else { k - 1 };
            assert(t[moved] == s[k]);
        }
    }
    assert forall|f: Fingerprint| holds(t, f) implies #[trigger] table(t)[f] == table(s).remove(gone)[f] by {
        let k = slot(t, f);
        lemma_slot(s, if k < i { k } else { k + 1 });
    }
}

/// The guard's table of pending redemptions, at most one per key.
pub struct Guard {
    records: Vec<PendingRedemption>,
}

impl View for Guard {
    type V = Map<Fingerprint, PendingView>;

    closed spec fn view(&self) -> Map<Fingerprint, PendingView> {
        table(self.records@)
    }
}

impl Guard {
    /// The table is well formed when no two of its records share a key.
    pub closed spec fn wf(&self) -> bool {
        distinct(self.records@)
    }

    /// Every record is filed under its own key.
    pub proof fn lemma_filed(&self, fingerprint: Fingerprint)
        requires
            self.wf(),
            self@.contains_key(fingerprint),
        ensures
            self@[fingerprint].fingerprint == fingerprint,
    {
    }

    /// An empty table.
    pub fn new() -> (g: Guard)
        ensures
            g.wf(),
            g@ == Map::<Fingerprint, PendingView>::empty(),
    {
        Guard { records: Vec::new() }
    }

    fn position(&self, fingerprint: Fingerprint) -> (r: Option<usize>)
        ensures
            match r {
                Some(i) => i < self.records.len() && self.records[i as int].fingerprint == fingerprint,
                None => !holds(self.records@, fingerprint),
            },
    {
        let mut i: usize = 0;
        while i < self.records.len()
            invariant
                i <= self.records.len(),
                forall|j: int| 0 <= j < i ==> (#[trigger] self.records[j]).fingerprint != fingerprint,
            decreases self.records.len() - i,
        {
            if self.records[i].fingerprint == fingerprint {
                return Some(i);
            }
            i += 1;
        }
        None
    }

    /// The record kept under `fingerprint`, if there is one.
    pub fn find(&self, fingerprint: Fingerprint) -> (r: Option<PendingRedemption>)
        requires
            self.wf(),
        ensures
            match r {
                Some(rec) => self@.contains_key(fingerprint) && rec@ == self@[fingerprint],
                None => !self@.contains_key(fingerprint),
            },
            r matches Some(rec) ==> rec.fingerprint == fingerprint,
    {
        match self.position(fingerprint) {
            Some(i) => {
                proof {
                    lemma_slot(self.records@, i as int);
                }
                Some(self.records[i].clone())
            },
            None => None,
        }
    }

    /// Keeps `record` unless a record with its key is already there. Returns
    /// whether it was kept.
    pub fn record(&mut self, record: PendingRedemption) -> (kept: bool)
        requires
            old(self).wf(),
        ensures
            final(self).wf(),
            kept == !old(self)@.contains_key(record.fingerprint),
            kept ==> final(self)@ == old(self)@.insert(record.fingerprint, record@),
            !kept ==> final(self)@ == old(self)@,
    {
        match self.position(record.fingerprint) {
            Some(_) => false,
            None => {
                proof {
                    lemma_push(self.records@, record);
                }
                self.records.push(record);
                true
            },
        }
    }

    /// Drops the record kept under `fingerprint`. Returns whether there was
    /// one.
    pub fn settle(&mut self, fingerprint: Fingerprint) -> (found: bool)
        requires
            old(self).wf(),
        ensures
            final(self).wf(),
            found == old(self)@.contains_key(fingerprint),
            final(self)@ == old(self)@.remove(fingerprint),
    {
        match self.position(fingerprint) {
            Some(i) => {
                proof {
                    lemma_slot(self.records@, i as int);
                    lemma_remove(self.records@, i as int);
                }
                let _ = self.records.remove(i);
                true
            },
            None => false,
        }
    }

    /// The records that are stale at the time `now`: those an operator has to
    /// look at. Each stale record comes out exactly once.
    pub fn stale_records(&self, now: i64, window: u64) -> (out: Vec<PendingRedemption>)
        requires
            self.wf(),
        ensures
            forall|k: int|
                0 <= k < out.len() ==> {
                    &&& self@.contains_key((#[trigger] out[k]).fingerprint)
                    &&& out[k]@ == self@[out[k].fingerprint]
                    &&& out[k]@.stale(now as int, window as int)
                },
            forall|f: Fingerprint|
                self@.contains_key(f) && self@[f].stale(now as int, window as int) ==> holds(out@, f),
            distinct(out@),
    {
        let mut out: Vec<PendingRedemption> = Vec::new();
        let mut i: usize = 0;
        while i < self.records.len()
            invariant
                i <= self.records.len(),
                distinct(self.records@),
                forall|k: int|
                    0 <= k < out.len() ==> exists|j: int|
                        0 <= j < i && (#[trigger] out[k])@ == (#[trigger] self.records[j])@,
                forall|k: int| 0 <= k < out.len() ==> (#[trigger] out[k])@.stale(now as int, window as int),
                forall|j: int|
                    0 <= j < i && (#[trigger] self.records[j])@.stale(now as int, window as int) ==> holds(
                        out@,
                        self.records[j].fingerprint,
                    ),
                distinct(out@),
            decreases self.records.len() - i,
        {
            if self.records[i].is_stale(now, window) {
                let rec = self.records[i].clone();
                proof {
                    assert(!holds(out@, rec.fingerprint)) by {
                        if holds(out@, rec.fingerprint) {
                            let k = slot(out@, rec.fingerprint);
                            let j = choose|j: int| 0 <= j < i && out[k]@ == (#[trigger] self.records[j])@;
                            assert(self.records[j].fingerprint == self.records[i as int].fingerprint);
                        }
                    }
                    lemma_push(out@, rec);
                    lemma_holds_push(out@, rec);
                    assert forall|k: int| 0 <= k < out.len() implies exists|j: int|
                        0 <= j < i + 1 && (#[trigger] out[k])@ == (#[trigger] self.records[j])@ by {
                        let j = choose|j: int| 0 <= j < i && out[k]@ == (#[trigger] self.records[j])@;
                        assert(out[k]@ == self.records[j]@);
                    }
                }
                out.push(rec);
            }
            i += 1;
        }
        proof {
            assert forall|k: int| 0 <= k < out.len() implies {
                &&& self@.contains_key((#[trigger] out[k]).fingerprint)
                &&& out[k]@ == self@[out[k].fingerprint]
            } by {
                let j = choose|j: int| 0 <= j < i && out[k]@ == (#[trigger] self.records[j])@;
                lemma_slot(self.records@, j);
            }
            assert forall|f: Fingerprint|
                self@.contains_key(f) && self@[f].stale(now as int, window as int) implies holds(out@, f) by {
                let j = slot(self.records@, f);
                lemma_slot(self.records@, j);
            }
        }
        out
    }

    /// What a retry of the redemption with the key `fingerprint` should do at
    /// the time `now`.
    pub fn decide_retry(&self, fingerprint: Fingerprint, now: i64, cfg: &Config) -> (d: RetryDecision)
        requires
            self.wf(),
        ensures
            d == retry_decision(
                if self@.contains_key(fingerprint) {
                    Some(self@[fingerprint])
                } else {
                    None
                },
                now as int,
                cfg.staleness_secs as int,
            ),
    {
        match self.find(fingerprint) {
            None => RetryDecision::Fresh,
            Some(rec) => {
                if rec.is_stale(now, cfg.staleness_secs) {
                    RetryDecision::Escalate
                } else {
                    RetryDecision::Resume
                }
            },
        }
    }
}

} // verus!
