use std::collections::HashMap;
use vstd::prelude::*;

use crate::account::AccountId;

verus! {

broadcast use vstd::std_specs::hash::group_hash_axioms;

/// Which destination chains are accepted, and which account settles payments
/// bound for each. A chain with no entry is unsupported and has no relayer.
pub struct ChainRegistry {
    supported: HashMap<u32, bool>,
    relayers: HashMap<u32, AccountId>,
}

impl ChainRegistry {
    /// The supported flag of each configured chain.
    pub closed spec fn flags(&self) -> Map<u32, bool> {
        self.supported@
    }

    /// The relayer bound to each chain that has one.
    pub closed spec fn relayers(&self) -> Map<u32, AccountId> {
        self.relayers@
    }

    pub open spec fn supports(&self, chain_id: u32) -> bool {
        self.flags().contains_key(chain_id) && self.flags()[chain_id]
    }

    pub open spec fn relayer(&self, chain_id: u32) -> Option<AccountId> {
        if self.relayers().contains_key(chain_id) {
            Some(self.relayers()[chain_id])
        } else {
            None
        }
    }

    pub fn new() -> (r: Self)
        ensures
            r.flags() == Map::<u32, bool>::empty(),
            r.relayers() == Map::<u32, AccountId>::empty(),
    {
        ChainRegistry { supported: HashMap::new(), relayers: HashMap::new() }
    }

    /// Overwrites the supported flag of `chain_id`; binds `relayer` to it when one is given,
    /// and otherwise leaves the existing binding as it was.
    pub fn configure(&mut self, chain_id: u32, supported: bool, relayer: Option<AccountId>)
        ensures
            final(self).flags() == old(self).flags().insert(chain_id, supported),
            final(self).relayers() == (match relayer {
                Some(r) => old(self).relayers().insert(chain_id, r),
                None => old(self).relayers(),
            }),
    {
        self.supported.insert(chain_id, supported);
        match relayer {
            Some(r) => {
                self.relayers.insert(chain_id, r);
            },
            None => {},
        }
    }

    pub fn is_supported(&self, chain_id: u32) -> (r: bool)
        ensures
            r == self.supports(chain_id),
    {
        match self.supported.get(&chain_id) {
            Some(flag) => *flag,
            None => false,
        }
    }

    pub fn relayer_of(&self, chain_id: u32) -> (r: Option<AccountId>)
        ensures
            r == self.relayer(chain_id),
    {
        match self.relayers.get(&chain_id) {
            Some(a) => Some(*a),
            None => None,
        }
    }
}

} // verus!
