use vstd::prelude::*;

use crate::account::{AccountId, Balance};
use crate::table::AccountTable;

verus! {

/// Sum of the amounts in a list of (account, amount) pairs.
pub open spec fn sum_amounts(s: Seq<(AccountId, Balance)>) -> int
    decreases s.len(),
{
    if s.len() == 0 {
        0
    } else {
        sum_amounts(s.drop_last()) + s.last().1
    }
}

proof fn lemma_sum_amounts_update(s: Seq<(AccountId, Balance)>, i: int, x: (AccountId, Balance))
    requires
        0 <= i < s.len(),
    ensures
        sum_amounts(s.update(i, x)) == sum_amounts(s) - s[i].1 + x.1,
    decreases s.len(),
{
    if i == s.len() - 1 {
        assert(s.update(i, x).drop_last() =~= s.drop_last());
    } else {
        lemma_sum_amounts_update(s.drop_last(), i, x);
        assert(s.update(i, x).drop_last() =~= s.drop_last().update(i, x));
    }
}

proof fn lemma_sum_amounts_push(s: Seq<(AccountId, Balance)>, x: (AccountId, Balance))
    ensures
        sum_amounts(s.push(x)) == sum_amounts(s) + x.1,
{
    assert(s.push(x).drop_last() =~= s);
}

/// Balances of accounts; an account never seen holds zero.
pub struct BalanceLedger {
    table: AccountTable<Balance>,
}

impl BalanceLedger {
    pub closed spec fn view(&self) -> Map<AccountId, Balance> {
        self.table@
    }

    pub closed spec fn wf(&self) -> bool {
        self.table.wf()
    }

    /// The balance of `a`: zero for an account never credited.
    pub open spec fn balance(&self, a: AccountId) -> Balance {
        if self@.contains_key(a) {
            self@[a]
        } else {
            0
        }
    }

    /// The sum of all balances.
    pub closed spec fn total(&self) -> int {
        sum_amounts(self.table.entries())
    }

    pub fn new() -> (r: Self)
        ensures
            r.wf(),
            r@ == Map::<AccountId, Balance>::empty(),
            r.total() == 0,
    {
        BalanceLedger { table: AccountTable::new() }
    }

    pub fn balance_of(&self, a: &AccountId) -> (r: Balance)
        requires
            self.wf(),
        ensures
            r == self.balance(*a),
    {
        match self.table.get(a) {
            Some(v) => v,
            None => 0,
        }
    }

    /// Sets the balance of `a` to `v`, and moves the total by the difference.
    fn put(&mut self, a: AccountId, v: Balance)
        requires
            old(self).wf(),
        ensures
            final(self).wf(),
            final(self)@ == old(self)@.insert(a, v),
            final(self).total() == old(self).total() - old(self).balance(a) + v,
    {
        let ghost s = self.table.entries();
        self.table.set(a, v);
        proof {
            if old(self).table@.contains_key(a) {
                let i = choose|i: int|
                    0 <= i < s.len() && s[i].0 == a && s[i].1 == old(self).table@[a]
                        && self.table.entries() == s.update(i, (a, v));
                lemma_sum_amounts_update(s, i, (a, v));
            } else {
                lemma_sum_amounts_push(s, (a, v));
            }
        }
    }

    /// Adds `amount` to the balance of `a`, saturating at the largest balance.
    pub fn deposit(&mut self, a: AccountId, amount: Balance)
        requires
            old(self).wf(),
        ensures
            final(self).wf(),
            final(self)@ == old(self)@.insert(a, old(self).balance(a).saturating_add(amount)),
            old(self).balance(a) + amount <= Balance::MAX ==> final(self).total() == old(
                self,
            ).total() + amount,
    {
        let current = self.balance_of(&a);
        self.put(a, current.saturating_add(amount));
    }

    /// Credits `amount` to `a` on settlement; the same saturating addition as `deposit`.
    pub fn release(&mut self, a: AccountId, amount: Balance)
        requires
            old(self).wf(),
        ensures
            final(self).wf(),
            final(self)@ == old(self)@.insert(a, old(self).balance(a).saturating_add(amount)),
            old(self).balance(a) + amount <= Balance::MAX ==> final(self).total() == old(
                self,
            ).total() + amount,
    {
        self.deposit(a, amount)
    }

    /// Debits `amount` from `a` when the balance covers it; returns whether it did.
    /// On `false` nothing changes.
    pub fn lock(&mut self, a: AccountId, amount: Balance) -> (ok: bool)
        requires
            old(self).wf(),
        ensures
            final(self).wf(),
            ok == (old(self).balance(a) >= amount),
            ok ==> final(self)@ == old(self)@.insert(a, (old(self).balance(a) - amount) as Balance),
            ok ==> final(self).total() == old(self).total() - amount,
            !ok ==> *final(self) == *old(self),
    {
        let current = self.balance_of(&a);
        if current < amount {
            return false;
        }
        self.put(a, current.saturating_sub(amount));
        true
    }
}

} // verus!
