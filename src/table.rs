use vstd::prelude::*;

use crate::account::AccountId;

verus! {

/// A finite map from accounts to values, stored as a list of distinct keys.
pub struct AccountTable<V> {
    entries: Vec<(AccountId, V)>,
    model: Ghost<Map<AccountId, V>>,
}

impl<V: Copy> AccountTable<V> {
    /// The stored pairs, one per account.
    pub closed spec fn entries(&self) -> Seq<(AccountId, V)> {
        self.entries@
    }

    pub closed spec fn view(&self) -> Map<AccountId, V> {
        self.model@
    }

    pub closed spec fn wf(&self) -> bool {
        &&& forall|i: int, j: int|
            0 <= i < j < self.entries@.len() ==> #[trigger] self.entries@[i].0
                != #[trigger] self.entries@[j].0
        &&& forall|i: int|
            0 <= i < self.entries@.len() ==> {
                &&& self.model@.contains_key(#[trigger] self.entries@[i].0)
                &&& self.model@[self.entries@[i].0] == self.entries@[i].1
            }
        &&& forall|a: AccountId|
            #[trigger] self.model@.contains_key(a) ==> exists|i: int|
                0 <= i < self.entries@.len() && #[trigger] self.entries@[i].0 == a
    }

    pub fn new() -> (r: Self)
        ensures
            r.wf(),
            r@ == Map::<AccountId, V>::empty(),
            r.entries().len() == 0,
    {
        AccountTable { entries: Vec::new(), model: Ghost(Map::empty()) }
    }

    fn index_of(&self, a: &AccountId) -> (r: Option<usize>)
        requires
            self.wf(),
        ensures
            match r {
                Some(i) => i < self.entries@.len() && self.entries@[i as int].0 == *a,
                None => !self@.contains_key(*a),
            },
    {
        let mut i: usize = 0;
        while i < self.entries.len()
            invariant
                self.wf(),
                i <= self.entries@.len(),
                forall|k: int| 0 <= k < i ==> self.entries@[k].0 != *a,
            decreases self.entries@.len() - i,
        {
            if self.entries[i].0 == *a {
                return Some(i);
            }
            i = i + 1;
        }
        None
    }

    /// The value stored for `a`, if any.
    pub fn get(&self, a: &AccountId) -> (r: Option<V>)
        requires
            self.wf(),
        ensures
            r == (if self@.contains_key(*a) {
                Some(self@[*a])
            } else {
                None::<V>
            }),
    {
        match self.index_of(a) {
            Some(i) => Some(self.entries[i].1),
            None => None,
        }
    }

    /// Stores `v` for `a`, replacing any earlier value.
    pub fn set(&mut self, a: AccountId, v: V)
        requires
            old(self).wf(),
        ensures
            final(self).wf(),
            final(self)@ == old(self)@.insert(a, v),
            old(self)@.contains_key(a) ==> exists|i: int|
                0 <= i < old(self).entries().len() && old(self).entries()[i].0 == a
                    && old(self).entries()[i].1 == old(self)@[a] && final(self).entries() == old(self).entries().update(i, (a, v)),
            !old(self)@.contains_key(a) ==> final(self).entries() == old(self).entries().push(
                (a, v),
            ),
    {
        match self.index_of(&a) {
            Some(i) => {
                self.entries.set(i, (a, v));
                self.model = Ghost(self.model@.insert(a, v));
                assert(self.entries@ == old(self).entries@.update(i as int, (a, v)));
                assert forall|b: AccountId| #[trigger] self.model@.contains_key(b) implies exists|k: int|
                    0 <= k < self.entries@.len() && #[trigger] self.entries@[k].0 == b by {
                    if b != a {
                        let k = choose|k: int|
                            0 <= k < old(self).entries@.len() && #[trigger] old(self).entries@[k].0 == b;
                        assert(self.entries@[k].0 == b);
                    } else {
                        assert(self.entries@[i as int].0 == b);
                    }
                }
                assert(0 <= i < old(self).entries().len() && old(self).entries()[i as int].0 == a);
            },
            None => {
                self.entries.push((a, v));
                self.model = Ghost(self.model@.insert(a, v));
                assert forall|b: AccountId| #[trigger] self.model@.contains_key(b) implies exists|k: int|
                    0 <= k < self.entries@.len() && #[trigger] self.entries@[k].0 == b by {
                    if b != a {
                        let k = choose|k: int|
                            0 <= k < old(self).entries@.len() && #[trigger] old(self).entries@[k].0 == b;
                        assert(self.entries@[k].0 == b);
                    } else {
                        assert(self.entries@[self.entries@.len() - 1].0 == b);
                    }
                }
            },
        }
    }
}

} // verus!
