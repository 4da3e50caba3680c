use vstd::prelude::*;

use crate::account::{AccountId, Balance};
use crate::table::AccountTable;

verus! {

/// Why an operation of the bill-splitting ledger was refused.
#[derive(Clone, Copy, Debug, PartialEq, Eq, Structural)]
pub enum Error {
    BillNotFound,
    UnauthorizedAccess,
    InvalidAmount,
    BillExpired,
    BillAlreadyCompleted,
    ParticipantNotFound,
    AlreadyPaid,
    InvalidParticipants,
}

/// Signal: a bill was created.
#[derive(Clone, Copy, Debug, PartialEq, Eq)]
pub struct BillCreated {
    pub bill_id: u32,
    pub creator: AccountId,
    pub total_amount: Balance,
    pub participant_count: u32,
}

/// Signal: a participant paid their share.
#[derive(Clone, Copy, Debug, PartialEq, Eq)]
pub struct BillPaid {
    pub bill_id: u32,
    pub payer: AccountId,
    pub amount: Balance,
}

/// Signal: the last share of a bill was paid.
#[derive(Clone, Copy, Debug, PartialEq, Eq)]
pub struct BillCompleted {
    pub bill_id: u32,
    pub creator: AccountId,
    pub total_paid: Balance,
}

/// The signals of the bill-splitting ledger, in the order they were emitted.
#[derive(Clone, Copy, Debug, PartialEq, Eq)]
pub enum BillEvent {
    Created(BillCreated),
    Paid(BillPaid),
    Completed(BillCompleted),
}

/// One bill: who owes which share, and who has paid.
pub struct Bill {
    pub creator: AccountId,
    pub total_amount: Balance,
    /// The participants, in the order given; `shares[i]` is what `participants[i]` owes.
    pub participants: Vec<AccountId>,
    pub shares: Vec<Balance>,
    /// The accounts that have paid, in the order they paid.
    pub payers: Vec<AccountId>,
    pub paid_count: u32,
    pub completed: bool,
    pub deadline: u64,
}

/// The sum of a list of amounts.
pub open spec fn sum_shares(s: Seq<Balance>) -> int
    decreases s.len(),
{
    if s.len() == 0 {
        0
    } else {
        sum_shares(s.drop_last()) + s.last()
    }
}

proof fn lemma_sum_shares_prefix(s: Seq<Balance>, i: int)
    requires
        0 <= i <= s.len(),
    ensures
        sum_shares(s.take(i)) <= sum_shares(s),
    decreases s.len(),
{
    if i < s.len() {
        assert(s.take(i) =~= s.drop_last().take(i));
        lemma_sum_shares_prefix(s.drop_last(), i);
    } else {
        assert(s.take(i) =~= s);
    }
}

proof fn lemma_sum_shares_nonnegative(s: Seq<Balance>)
    ensures
        0 <= sum_shares(s),
    decreases s.len(),
{
    if s.len() > 0 {
        lemma_sum_shares_nonnegative(s.drop_last());
    }
}

/// The first position of `a` in `s`, when `s` holds it.
pub open spec fn first_index(s: Seq<AccountId>, a: AccountId) -> int {
    choose|k: int| 0 <= k < s.len() && s[k] == a && forall|j: int| 0 <= j < k ==> s[j] != a
}

/// The bill count of `a` in `m`: zero where it has none.
pub open spec fn count_in(m: Map<AccountId, u32>, a: AccountId) -> u32 {
    if m.contains_key(a) {
        m[a]
    } else {
        0
    }
}

/// `m` with one more bill counted (saturating) for each account of `s`, once per occurrence.
pub open spec fn count_bills(m: Map<AccountId, u32>, s: Seq<AccountId>) -> Map<AccountId, u32>
    decreases s.len(),
{
    if s.len() == 0 {
        m
    } else {
        let m1 = count_bills(m, s.drop_last());
        m1.insert(s.last(), count_in(m1, s.last()).saturating_add(1))
    }
}

/// The fields that `get_bill_info` reports of a bill: creator, total amount,
/// participant count, paid count, completed, deadline.
pub open spec fn bill_info_of(b: Bill) -> (AccountId, Balance, u32, u32, bool, u64) {
    (b.creator, b.total_amount, b.participants@.len() as u32, b.paid_count, b.completed, b.deadline)
}

/// The sum of `v`, unless it exceeds the largest balance.
fn checked_sum(v: &Vec<Balance>) -> (r: Option<Balance>)
    ensures
        0 <= sum_shares(v@),
        r == (if sum_shares(v@) <= Balance::MAX {
            Some(sum_shares(v@) as Balance)
        } else {
            None::<Balance>
        }),
{
    proof {
        lemma_sum_shares_nonnegative(v@);
    }
    let mut sum: Balance = 0;
    let mut i: usize = 0;
    while i < v.len()
        invariant
            i <= v@.len(),
            sum == sum_shares(v@.take(i as int)),
        decreases v@.len() - i,
    {
        proof {
            assert(v@.take(i + 1).drop_last() =~= v@.take(i as int));
        }
        match sum.checked_add(v[i]) {
            Some(t) => {
                sum = t;
            },
            None => {
                proof {
                    lemma_sum_shares_prefix(v@, i + 1);
                }
                return None;
            },
        }
        i = i + 1;
    }
    assert(v@.take(i as int) =~= v@);
    Some(sum)
}

/// The first position of `a` in `s`, if any.
fn position(s: &Vec<AccountId>, a: &AccountId) -> (r: Option<usize>)
    ensures
        match r {
            Some(k) => {
                &&& k < s@.len()
                &&& s@[k as int] == *a
                &&& s@.contains(*a)
                &&& k == first_index(s@, *a)
            },
            None => !s@.contains(*a),
        },
{
    let mut k: usize = 0;
    while k < s.len()
        invariant
            k <= s@.len(),
            forall|j: int| 0 <= j < k ==> s@[j] != *a,
        decreases s@.len() - k,
    {
        if s[k] == *a {
            assert(s@[k as int] == *a);
            return Some(k);
        }
        k = k + 1;
    }
    None
}

/// Counts one more bill for `a`, saturating.
fn add_bill_count(t: &mut AccountTable<u32>, a: AccountId)
    requires
        old(t).wf(),
    ensures
        final(t).wf(),
        final(t)@ == old(t)@.insert(a, count_in(old(t)@, a).saturating_add(1)),
{
    let current = match t.get(&a) {
        Some(v) => v,
        None => 0,
    };
    t.set(a, current.saturating_add(1));
}

/// A ledger of bills, each split into fixed shares among participants and
/// completed once every participant has paid before the deadline.
pub struct BillSplitting {
    bills: Vec<Bill>,
    user_bills: AccountTable<u32>,
    owner: AccountId,
    events: Vec<BillEvent>,
}

/// What `create_bill` returns: the checks in order, then the next id.
pub open spec fn create_bill_result(
    s: BillSplitting,
    total_amount: Balance,
    participants: Seq<AccountId>,
    individual_amounts: Seq<Balance>,
) -> Result<u32, Error> {
    if total_amount == 0 {
        Err(Error::InvalidAmount)
    } else if participants.len() == 0 {
        Err(Error::InvalidParticipants)
    } else if participants.len() != individual_amounts.len() {
        Err(Error::InvalidParticipants)
    } else if sum_shares(individual_amounts) != total_amount {
        Err(Error::InvalidAmount)
    } else {
        Ok(s.bills().len() as u32)
    }
}

/// What `pay_bill` returns: the checks in order.
pub open spec fn pay_bill_result(s: BillSplitting, caller: AccountId, now: u64, bill_id: u32, amount: Balance) -> Result<(), Error> {
    let b = s.bills()[bill_id as int];
    if bill_id >= s.bills().len() {
        Err(Error::BillNotFound)
    } else if b.completed {
        Err(Error::BillAlreadyCompleted)
    } else if now > b.deadline {
        Err(Error::BillExpired)
    } else if b.payers@.contains(caller) {
        Err(Error::AlreadyPaid)
    } else if !b.participants@.contains(caller) {
        Err(Error::ParticipantNotFound)
    } else if amount != b.shares@[first_index(b.participants@, caller)] {
        Err(Error::InvalidAmount)
    } else {
        Ok(())
    }
}

impl BillSplitting {
    pub closed spec fn bills(&self) -> Seq<Bill> {
        self.bills@
    }

    /// How many bills each account has created or been named in.
    pub closed spec fn user_bills(&self) -> Map<AccountId, u32> {
        self.user_bills@
    }

    pub closed spec fn owner(&self) -> AccountId {
        self.owner
    }

    /// The signals emitted and not yet taken.
    pub closed spec fn events(&self) -> Seq<BillEvent> {
        self.events@
    }

    pub closed spec fn wf(&self) -> bool {
        &&& self.user_bills.wf()
        &&& self.bills@.len() <= u32::MAX
        &&& forall|i: int|
            0 <= i < self.bills@.len() ==> {
                &&& (#[trigger] self.bills@[i]).participants@.len() == self.bills@[i].shares@.len()
                &&& self.bills@[i].participants@.len() <= u32::MAX
            }
    }

    pub fn new(owner: AccountId) -> (r: Self)
        ensures
            r.wf(),
            r.bills() == Seq::<Bill>::empty(),
            r.user_bills() == Map::<AccountId, u32>::empty(),
            r.owner() == owner,
            r.events() == Seq::<BillEvent>::empty(),
    {
        BillSplitting { bills: Vec::new(), user_bills: AccountTable::new(), owner, events: Vec::new() }
    }

    /// The same as `new`.
    pub fn default(owner: AccountId) -> (r: Self)
        ensures
            r.wf(),
            r.bills() == Seq::<Bill>::empty(),
            r.user_bills() == Map::<AccountId, u32>::empty(),
            r.owner() == owner,
            r.events() == Seq::<BillEvent>::empty(),
    {
        Self::new(owner)
    }
    /// Creates a bill of `total_amount` split among `participants`, who owe
    /// `individual_amounts` in the same order, payable until `deadline`.
    /// Refused, with nothing changed, for a zero total, then no participants,
    /// then lists of different lengths, then shares that do not sum to the total.
    pub fn create_bill(
        &mut self,
        caller: AccountId,
        total_amount: Balance,
        participants: Vec<AccountId>,
        individual_amounts: Vec<Balance>,
        deadline: u64,
    ) -> (r: Result<u32, Error>)
        requires
            old(self).wf(),
            old(self).bills().len() < u32::MAX,
            participants@.len() <= u32::MAX,
        ensures
            final(self).wf(),
            r == create_bill_result(*old(self), total_amount, participants@, individual_amounts@),
            r is Err ==> *final(self) == *old(self),
            r is Ok ==> {
                let b = final(self).bills().last();
                &&& final(self).bills().len() == old(self).bills().len() + 1
                &&& final(self).bills().drop_last() == old(self).bills()
                &&& b.creator == caller
                &&& b.total_amount == total_amount
                &&& b.participants@ == participants@
                &&& b.shares@ == individual_amounts@
                &&& b.payers@ == Seq::<AccountId>::empty()
                &&& b.paid_count == 0
                &&& !b.completed
                &&& b.deadline == deadline
                &&& final(self).user_bills() == count_bills(old(self).user_bills(), seq![caller] + participants@)
                &&& final(self).owner() == old(self).owner()
                &&& final(self).events() == old(self).events().push(
                    BillEvent::Created(
                        (BillCreated {
                            bill_id: old(self).bills().len() as u32,
                            creator: caller,
                            total_amount,
                            participant_count: participants@.len() as u32,
                        }),
                    ),
                )
            },
    {
        if total_amount == 0 {
            return Err(Error::InvalidAmount);
        }
        if participants.len() == 0 {
            return Err(Error::InvalidParticipants);
        }
        if participants.len() != individual_amounts.len() {
            return Err(Error::InvalidParticipants);
        }
        let sum = match checked_sum(&individual_amounts) {
            Some(v) => v,
            None => {
                return Err(Error::InvalidAmount);
            },
        };
        if sum != total_amount {
            return Err(Error::InvalidAmount);
        }
        let bill_id = self.bills.len() as u32;
        let participant_count = participants.len() as u32;
        let ghost named = seq![caller] + participants@;
        let ghost before = self.user_bills@;
        add_bill_count(&mut self.user_bills, caller);
        proof {
            assert(named.take(1).drop_last() =~= Seq::<AccountId>::empty());
            assert(count_bills(before, Seq::<AccountId>::empty()) == before);
            assert(named.take(1).last() == caller);
            assert(self.user_bills@ == count_bills(before, named.take(1)));
        }
        let mut j: usize = 0;
        while j < participants.len()
            invariant
                j <= participants@.len(),
                named == seq![caller] + participants@,
                self.bills == old(self).bills,
                self.events == old(self).events,
                self.owner == old(self).owner,
                self.user_bills.wf(),
                self.user_bills@ == count_bills(old(self).user_bills@, named.take(j + 1)),
            decreases participants@.len() - j,
        {
            add_bill_count(&mut self.user_bills, participants[j]);
            assert(named.take(j + 2).drop_last() =~= named.take(j + 1));
            j = j + 1;
        }
        assert(named.take(j + 1) =~= named);
        self.bills.push(
            Bill {
                creator: caller,
                total_amount,
                participants,
                shares: individual_amounts,
                payers: Vec::new(),
                paid_count: 0,
                completed: false,
                deadline,
            },
        );
        assert(self.bills@.drop_last() =~= old(self).bills@);
        self.events.push(
            BillEvent::Created(
                BillCreated { bill_id, creator: caller, total_amount, participant_count },
            ),
        );
        Ok(bill_id)
    }

    /// Pays `caller`'s share of bill `bill_id` at time `now`. The payment that
    /// brings the paid count to the participant count completes the bill.
    #[verifier::rlimit(40)]
    pub fn pay_bill(&mut self, caller: AccountId, now: u64, bill_id: u32, amount: Balance) -> (r: Result<(), Error>)
        requires
            old(self).wf(),
        ensures
            final(self).wf(),
            r == pay_bill_result(*old(self), caller, now, bill_id, amount),
            r is Err ==> *final(self) == *old(self),
            r is Ok ==> {
                let b0 = old(self).bills()[bill_id as int];
                let b1 = final(self).bills()[bill_id as int];
                let paid = b0.paid_count.saturating_add(1);
                let done = paid == b0.participants@.len();
                &&& final(self).bills().len() == old(self).bills().len()
                &&& forall|k: int| 0 <= k < old(self).bills().len() && k != bill_id ==> #[trigger] final(self).bills()[k] == old(self).bills()[k]
                &&& b1.creator == b0.creator
                &&& b1.total_amount == b0.total_amount
                &&& b1.participants == b0.participants
                &&& b1.shares == b0.shares
                &&& b1.payers@ == b0.payers@.push(caller)
                &&& b1.paid_count == paid
                &&& b1.completed == done
                &&& b1.deadline == b0.deadline
                &&& final(self).user_bills() == old(self).user_bills()
                &&& final(self).owner() == old(self).owner()
                &&& final(self).events() == if done {
                    old(self).events().push(
                        BillEvent::Completed(
                            (BillCompleted { bill_id, creator: b0.creator, total_paid: b0.total_amount }),
                        ),
                    ).push(BillEvent::Paid((BillPaid { bill_id, payer: caller, amount })))
                } else {
                    old(self).events().push(BillEvent::Paid((BillPaid { bill_id, payer: caller, amount })))
                }
            },
    {
        let i = bill_id as usize;
        if i >= self.bills.len() {
            return Err(Error::BillNotFound);
        }
        if self.bills[i].completed {
            return Err(Error::BillAlreadyCompleted);
        }
        if now > self.bills[i].deadline {
            return Err(Error::BillExpired);
        }
        if position(&self.bills[i].payers, &caller).is_some() {
            return Err(Error::AlreadyPaid);
        }
        let k = match position(&self.bills[i].participants, &caller) {
            Some(k) => k,
            None => {
                return Err(Error::ParticipantNotFound);
            },
        };
        assert(self.bills@[i as int].participants@.len() == self.bills@[i as int].shares@.len());
        if amount != self.bills[i].shares[k] {
            return Err(Error::InvalidAmount);
        }
        let participant_count = self.bills[i].participants.len();
        let paid = self.bills[i].paid_count.saturating_add(1);
        let creator = self.bills[i].creator;
        let total_paid = self.bills[i].total_amount;
        let done = paid as usize == participant_count;
        self.bills[i].payers.push(caller);
        self.bills[i].paid_count = paid;
        if done {
            self.bills[i].completed = true;
            self.events.push(BillEvent::Completed(BillCompleted { bill_id, creator, total_paid }));
        }
        self.events.push(BillEvent::Paid(BillPaid { bill_id, payer: caller, amount }));
        Ok(())
    }

    pub fn get_bill_info(&self, bill_id: u32) -> (r: Option<(AccountId, Balance, u32, u32, bool, u64)>)
        requires
            self.wf(),
        ensures
            r == (if bill_id < self.bills().len() {
                Some(bill_info_of(self.bills()[bill_id as int]))
            } else {
                None::<(AccountId, Balance, u32, u32, bool, u64)>
            }),
    {
        let i = bill_id as usize;
        if i >= self.bills.len() {
            return None;
        }
        let b = &self.bills[i];
        Some((b.creator, b.total_amount, b.participants.len() as u32, b.paid_count, b.completed, b.deadline))
    }

    pub fn get_user_bill_count(&self, user: AccountId) -> (r: u32)
        requires
            self.wf(),
        ensures
            r == count_in(self.user_bills(), user),
    {
        match self.user_bills.get(&user) {
            Some(v) => v,
            None => 0,
        }
    }

    /// The number of bills created so far.
    pub fn get_stats(&self) -> (r: u32)
        requires
            self.wf(),
        ensures
            r == self.bills().len(),
    {
        self.bills.len() as u32
    }

    pub fn get_owner(&self) -> (r: AccountId)
        ensures
            r == self.owner(),
    {
        self.owner
    }

    /// Hands out the signals emitted so far, oldest first, and clears the log.
    pub fn take_events(&mut self) -> (r: Vec<BillEvent>)
        ensures
            r@ == old(self).events(),
            final(self).events() == Seq::<BillEvent>::empty(),
            final(self).bills() == old(self).bills(),
            final(self).user_bills() == old(self).user_bills(),
            final(self).owner() == old(self).owner(),
            final(self).wf() == old(self).wf(),
    {
        let mut out: Vec<BillEvent> = Vec::new();
        std::mem::swap(&mut out, &mut self.events);
        out
    }
}

} // verus!
