use vstd::prelude::*;

verus! {

/// Amounts of the native currency.
pub type Balance = u128;

/// A 32-byte account identifier, held as two 128-bit halves
/// (`hi` is the big-endian value of the first sixteen bytes, `lo` of the last sixteen).
#[derive(Clone, Copy, Debug, PartialEq, Eq, Hash, Structural)]
pub struct AccountId {
    pub hi: u128,
    pub lo: u128,
}

impl AccountId {
    pub fn new(hi: u128, lo: u128) -> (r: AccountId)
        ensures
            r.hi == hi,
            r.lo == lo,
    {
        AccountId { hi, lo }
    }
}

} // verus!
