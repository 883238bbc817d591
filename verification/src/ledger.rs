//! The ledger: one account per user, each with a balance that never goes
//! below zero and changes only through guarded adjustments.

use vstd::prelude::*;

verus! {

/// One user's account.
#[derive(Debug, PartialEq, Eq)]
pub struct Account {
    pub user_id: i64,
    /// Coins the user holds.
    pub balance: u64,
    /// The subscription tier of the user.
    pub plan: String,
}

/// The mathematical value of an [`Account`].
pub struct AccountView {
    pub user_id: int,
    pub balance: nat,
    pub plan: Seq<char>,
}

impl View for Account {
    type V = AccountView;

    open spec fn view(&self) -> AccountView {
        AccountView { user_id: self.user_id as int, balance: self.balance as nat, plan: self.plan@ }
    }
}

impl AccountView {
    /// The same account after `coins` were taken from it.
    pub open spec fn debited(self, coins: nat) -> AccountView
        recommends
            coins <= self.balance,
    {
        AccountView { balance: (self.balance - coins) as nat, ..self }
    }
}

impl AccountView {
    /// The same account after `coins` were added to it.
    pub open spec fn credited(self, coins: nat) -> AccountView {
        AccountView { balance: self.balance + coins, ..self }
    }
}

impl Clone for Account {
    fn clone(&self) -> (r: Self)
        ensures
            r@ == self@,
    {
        Account { user_id: self.user_id, balance: self.balance, plan: self.plan.clone() }
    }
}

/// Why a debit was refused.
#[derive(Clone, Copy, Debug, PartialEq, Eq, Structural)]
pub enum DebitError {
    UnknownUser,
    InsufficientBalance,
}

/// Why a credit was refused.
#[derive(Clone, Copy, Debug, PartialEq, Eq, Structural)]
pub enum CreditError {
    UnknownUser,
    /// The balance cannot hold that much more.
    Overflow,
}

/// Whether some account of `s` belongs to `user`.
spec fn holds(s: Seq<Account>, user: i64) -> bool {
    exists|i: int| 0 <= i < s.len() && (#[trigger] s[i]).user_id == user
}

/// The place of the account of `user`.
spec fn slot(s: Seq<Account>, user: i64) -> int {
    choose|i: int| 0 <= i < s.len() && (#[trigger] s[i]).user_id == user
}

/// Whether no two accounts belong to one user.
spec fn distinct(s: Seq<Account>) -> bool {
    forall|i: int, j: int|
        0 <= i < s.len() && 0 <= j < s.len() && i != j ==> (#[trigger] s[i]).user_id != (#[trigger] s[j]).user_id
}

/// The accounts of `s` by user.
spec fn table(s: Seq<Account>) -> Map<i64, AccountView> {
    Map::new(|u: i64| holds(s, u), |u: i64| s[slot(s, u)]@)
}

proof fn lemma_slot(s: Seq<Account>, i: int)
    requires
        distinct(s),
        0 <= i < s.len(),
    ensures
        holds(s, s[i].user_id),
        slot(s, s[i].user_id) == i,
        table(s).contains_key(s[i].user_id),
        table(s)[s[i].user_id] == s[i]@,
{
}

proof fn lemma_push(s: Seq<Account>, a: Account)
    requires
        distinct(s),
        !holds(s, a.user_id),
    ensures
        distinct(s.push(a)),
        table(s.push(a)) == table(s).insert(a.user_id, a@),
{
    let t = s.push(a);
    assert forall|u: i64| #[trigger] holds(t, u) == (holds(s, u) || u == a.user_id) by {
        if holds(s, u) {
            assert(t[slot(s, u)] == s[slot(s, u)]);
        }
        if u == a.user_id {
            assert(t[s.len() as int] == a);
        }
    }
    assert forall|u: i64| holds(t, u) implies #[trigger] table(t)[u] == table(s).insert(a.user_id, a@)[u] by {
        let k = slot(t, u);
        if k < s.len() {
            lemma_slot(s, k);
        }
    }
}

proof fn lemma_update(s: Seq<Account>, i: int, a: Account)
    requires
        distinct(s),
        0 <= i < s.len(),
        a.user_id == s[i].user_id,
    ensures
        distinct(s.update(i, a)),
        table(s.update(i, a)) == table(s).insert(a.user_id, a@),
{
    let t = s.update(i, a);
    assert forall|x: int| 0 <= x < t.len() implies (#[trigger] t[x]).user_id == s[x].user_id by {}
    assert forall|u: i64| #[trigger] holds(t, u) == holds(s, u) by {
        if holds(s, u) {
            assert(t[slot(s, u)].user_id == u);
        }
    }
    assert forall|u: i64| holds(t, u) implies #[trigger] table(t)[u] == table(s).insert(a.user_id, a@)[u] by {
        let k = slot(t, u);
        lemma_slot(t, k);
        lemma_slot(s, k);
    }
}

/// The accounts of all users, at most one per user.
pub struct Ledger {
    accounts: Vec<Account>,
}

impl View for Ledger {
    type V = Map<i64, AccountView>;

    closed spec fn view(&self) -> Map<i64, AccountView> {
        table(self.accounts@)
    }
}

impl Ledger {
    /// The ledger is well formed when no user has two accounts.
    pub closed spec fn wf(&self) -> bool {
        distinct(self.accounts@)
    }

    /// Every account is filed under its own user.
    pub proof fn lemma_filed(&self, user_id: i64)
        requires
            self.wf(),
            self@.contains_key(user_id),
        ensures
            self@[user_id].user_id == user_id,
    {
    }

    /// A ledger without accounts.
    pub fn new() -> (l: Ledger)
        ensures
            l.wf(),
            l@ == Map::<i64, AccountView>::empty(),
    {
        Ledger { accounts: Vec::new() }
    }

    fn position(&self, user_id: i64) -> (r: Option<usize>)
        ensures
            match r {
                Some(i) => i < self.accounts.len() && self.accounts[i as int].user_id == user_id,
                None => !holds(self.accounts@, user_id),
            },
    {
        let mut i: usize = 0;
        while i < self.accounts.len()
            invariant
                i <= self.accounts.len(),
                forall|j: int| 0 <= j < i ==> (#[trigger] self.accounts[j]).user_id != user_id,
            decreases self.accounts.len() - i,
        {
            if self.accounts[i].user_id == user_id {
                return Some(i);
            }
            i += 1;
        }
        None
    }

    /// Opens an account for `user_id` unless the user has one. Returns
    /// whether it was opened.
    pub fn open_account(&mut self, user_id: i64, balance: u64, plan: String) -> (opened: bool)
        requires
            old(self).wf(),
        ensures
            final(self).wf(),
            opened == !old(self)@.contains_key(user_id),
            opened ==> final(self)@ == old(self)@.insert(
                user_id,
                AccountView { user_id: user_id as int, balance: balance as nat, plan: plan@ },
            ),
            !opened ==> final(self)@ == old(self)@,
    {
        match self.position(user_id) {
            Some(_) => false,
            None => {
                let account = Account { user_id, balance, plan };
                proof {
                    lemma_push(self.accounts@, account);
                }
                self.accounts.push(account);
                true
            },
        }
    }

    /// Tells whether `user_id` has an account.
    pub fn has_account(&self, user_id: i64) -> (b: bool)
        requires
            self.wf(),
        ensures
            b == self@.contains_key(user_id),
    {
        match self.position(user_id) {
            Some(i) => {
                proof {
                    lemma_slot(self.accounts@, i as int);
                }
                true
            },
            None => false,
        }
    }

    /// The account of `user_id` as it stands, if there is one.
    pub fn read(&self, user_id: i64) -> (r: Option<Account>)
        requires
            self.wf(),
        ensures
            match r {
                Some(a) => self@.contains_key(user_id) && a@ == self@[user_id],
                None => !self@.contains_key(user_id),
            },
            r matches Some(a) ==> a.user_id == user_id,
    {
        match self.position(user_id) {
            Some(i) => {
                proof {
                    lemma_slot(self.accounts@, i as int);
                }
                Some(self.accounts[i].clone())
            },
            None => None,
        }
    }

    /// The balance of `user_id`, if the user has an account.
    pub fn balance(&self, user_id: i64) -> (r: Option<u64>)
        requires
            self.wf(),
        ensures
            match r {
                Some(b) => self@.contains_key(user_id) && b == self@[user_id].balance,
                None => !self@.contains_key(user_id),
            },
    {
        match self.position(user_id) {
            Some(i) => {
                proof {
                    lemma_slot(self.accounts@, i as int);
                }
                Some(self.accounts[i].balance)
            },
            None => None,
        }
    }

    /// Takes `coins` from the balance of `user_id` if the user has an account
    /// that holds at least that much, and returns the balance left. A refused
    /// debit changes nothing.
    pub fn debit(&mut self, user_id: i64, coins: u64) -> (r: Result<u64, DebitError>)
        requires
            old(self).wf(),
        ensures
            final(self).wf(),
            match r {
                Ok(left) => {
                    &&& old(self)@.contains_key(user_id)
                    &&& old(self)@[user_id].balance >= coins
                    &&& left == old(self)@[user_id].balance - coins
                    &&& final(self)@ == old(self)@.insert(user_id, old(self)@[user_id].debited(coins as nat))
                },
                Err(DebitError::UnknownUser) => {
                    &&& !old(self)@.contains_key(user_id)
                    &&& final(self)@ == old(self)@
                },
                Err(DebitError::InsufficientBalance) => {
                    &&& old(self)@.contains_key(user_id)
                    &&& old(self)@[user_id].balance < coins
                    &&& final(self)@ == old(self)@
                },
            },
    {
        match self.position(user_id) {
            None => Err(DebitError::UnknownUser),
            Some(i) => {
                proof {
                    lemma_slot(self.accounts@, i as int);
                }
                let balance: u64 = self.accounts[i].balance;
                if balance < coins {
                    return Err(DebitError::InsufficientBalance);
                }
                let left: u64 = balance - coins;
                let account = Account { user_id, balance: left, plan: self.accounts[i].plan.clone() };
                proof {
                    lemma_update(self.accounts@, i as int, account);
                }
                self.accounts.set(i, account);
                Ok(left)
            },
        }
    }

    /// Adds `coins` to the balance of `user_id` if the user has an account
    /// that can hold that much more, and returns the new balance. A refused
    /// credit changes nothing.
    pub fn credit(&mut self, user_id: i64, coins: u64) -> (r: Result<u64, CreditError>)
        requires
            old(self).wf(),
        ensures
            final(self).wf(),
            match r {
                Ok(total) => {
                    &&& old(self)@.contains_key(user_id)
                    &&& total == old(self)@[user_id].balance + coins
                    &&& final(self)@ == old(self)@.insert(user_id, old(self)@[user_id].credited(coins as nat))
                },
                Err(CreditError::UnknownUser) => {
                    &&& !old(self)@.contains_key(user_id)
                    &&& final(self)@ == old(self)@
                },
                Err(CreditError::Overflow) => {
                    &&& old(self)@.contains_key(user_id)
                    &&& old(self)@[user_id].balance + coins > u64::MAX
                    &&& final(self)@ == old(self)@
                },
            },
    {
        match self.position(user_id) {
            None => Err(CreditError::UnknownUser),
            Some(i) => {
                proof {
                    lemma_slot(self.accounts@, i as int);
                }
                match self.accounts[i].balance.checked_add(coins) {
                    None => Err(CreditError::Overflow),
                    Some(total) => {
                        let account = Account {
                            user_id,
                            balance: total,
                            plan: self.accounts[i].plan.clone(),
                        };
                        proof {
                            lemma_update(self.accounts@, i as int, account);
                        }
                        self.accounts.set(i, account);
                        Ok(total)
                    },
                }
            },
        }
    }
}

} // verus!
