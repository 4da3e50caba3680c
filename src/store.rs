use vstd::prelude::*;

use crate::account::{AccountId, Balance};
use crate::xcm_handler::XcmMessageType;

verus! {

/// One cross-chain payment intent and whether it has been settled.
#[derive(Clone, Copy, Debug, PartialEq, Eq, Structural)]
pub struct PaymentRecord {
    pub sender: AccountId,
    pub recipient: AccountId,
    pub amount: Balance,
    pub source_chain: u32,
    pub destination_chain: u32,
    pub message_type: XcmMessageType,
    pub executed: bool,
    pub timestamp: u64,
}

/// Whether `r` still waits for settlement and names `user` as sender or recipient.
pub open spec fn pending_for(r: PaymentRecord, user: AccountId) -> bool {
    !r.executed && (r.sender == user || r.recipient == user)
}

/// How many of `records` are pending for `user`.
pub open spec fn pending_count(records: Seq<PaymentRecord>, user: AccountId) -> nat
    decreases records.len(),
{
    if records.len() == 0 {
        0
    } else {
        pending_count(records.drop_last(), user) + (if pending_for(records.last(), user) {
            1nat
        } else {
            0nat
        })
    }
}

/// The sum of the amounts of the records not yet executed: funds locked in flight.
pub open spec fn locked_amount(records: Seq<PaymentRecord>) -> int
    decreases records.len(),
{
    if records.len() == 0 {
        0
    } else {
        locked_amount(records.drop_last()) + (if records.last().executed {
            0
        } else {
            records.last().amount as int
        })
    }
}

pub proof fn lemma_pending_count_bound(records: Seq<PaymentRecord>, user: AccountId)
    ensures
        pending_count(records, user) <= records.len(),
    decreases records.len(),
{
    if records.len() > 0 {
        lemma_pending_count_bound(records.drop_last(), user);
    }
}

pub proof fn lemma_locked_amount_push(records: Seq<PaymentRecord>, r: PaymentRecord)
    ensures
        locked_amount(records.push(r)) == locked_amount(records) + (if r.executed {
            0
        } else {
            r.amount as int
        }),
{
    assert(records.push(r).drop_last() =~= records);
}

pub proof fn lemma_locked_amount_update(records: Seq<PaymentRecord>, i: int, r: PaymentRecord)
    requires
        0 <= i < records.len(),
    ensures
        locked_amount(records.update(i, r)) == locked_amount(records) - (if records[i].executed {
            0
        } else {
            records[i].amount as int
        }) + (if r.executed {
            0
        } else {
            r.amount as int
        }),
    decreases records.len(),
{
    if i == records.len() - 1 {
        assert(records.update(i, r).drop_last() =~= records.drop_last());
    } else {
        lemma_locked_amount_update(records.drop_last(), i, r);
        assert(records.update(i, r).drop_last() =~= records.drop_last().update(i, r));
    }
}

/// The append-only store of payment records; a record's id is its position.
pub struct PaymentStore {
    records: Vec<PaymentRecord>,
}

impl PaymentStore {
    pub closed spec fn view(&self) -> Seq<PaymentRecord> {
        self.records@
    }

    /// Every id fits the 32-bit counter.
    pub open spec fn wf(&self) -> bool {
        self@.len() <= u32::MAX
    }

    pub fn new() -> (r: Self)
        ensures
            r@ == Seq::<PaymentRecord>::empty(),
    {
        PaymentStore { records: Vec::new() }
    }

    /// The number of records, which is also the next id.
    pub fn count(&self) -> (r: u32)
        requires
            self.wf(),
        ensures
            r == self@.len(),
    {
        self.records.len() as u32
    }

    /// Stores `record` under the next id and returns that id.
    pub fn append(&mut self, record: PaymentRecord) -> (id: u32)
        requires
            old(self)@.len() < u32::MAX,
        ensures
            id == old(self)@.len(),
            final(self)@ == old(self)@.push(record),
    {
        let id = self.records.len() as u32;
        self.records.push(record);
        id
    }

    pub fn get(&self, id: u32) -> (r: Option<PaymentRecord>)
        ensures
            r == (if id < self@.len() {
                Some(self@[id as int])
            } else {
                None::<PaymentRecord>
            }),
    {
        let i = id as usize;
        if i < self.records.len() {
            Some(self.records[i])
        } else {
            None
        }
    }

    /// Sets the executed flag of record `id`.
    pub fn mark_executed(&mut self, id: u32)
        requires
            id < old(self)@.len(),
        ensures
            final(self)@ == old(self)@.update(id as int, (PaymentRecord { executed: true, ..old(self)@[id as int] })),
    {
        let i = id as usize;
        let mut r = self.records[i];
        r.executed = true;
        self.records.set(i, r);
    }

    /// How many records are pending for `user`, by a scan over every id.
    pub fn pending_count_for(&self, user: &AccountId) -> (r: u32)
        requires
            self.wf(),
        ensures
            r == pending_count(self@, *user),
    {
        let n = self.records.len();
        let mut count: u32 = 0;
        let mut i: usize = 0;
        while i < n
            invariant
                n == self@.len(),
                n <= u32::MAX,
                i <= n,
                count == pending_count(self@.take(i as int), *user),
            decreases n - i,
        {
            let r = self.records[i];
            proof {
                assert(self@.take(i + 1).drop_last() =~= self@.take(i as int));
                lemma_pending_count_bound(self@.take(i as int), *user);
            }
            if !r.executed && (r.sender == *user || r.recipient == *user) {
                count = count + 1;
            }
            i = i + 1;
        }
        assert(self@.take(n as int) =~= self@);
        count
    }
}

} // verus!
