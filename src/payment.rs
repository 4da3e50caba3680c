use vstd::prelude::*;

use crate::account::{AccountId, Balance};
use crate::ledger::BalanceLedger;

verus! {

/// Why a direct payment was refused.
#[derive(Clone, Copy, Debug, PartialEq, Eq, Structural)]
pub enum Error {
    InsufficientBalance,
    InvalidAmount,
    SelfPayment,
}

/// The supply minted to the owner by `Payment::default`.
pub const DEFAULT_SUPPLY: Balance = 1_000_000_000_000;

/// Signal: funds moved from one account to another.
#[derive(Clone, Copy, Debug, PartialEq, Eq)]
pub struct PaymentSent {
    pub from: AccountId,
    pub to: AccountId,
    pub amount: Balance,
    pub transaction_id: u32,
}

/// Signal: a payment request was made.
#[derive(Clone, Copy, Debug, PartialEq, Eq)]
pub struct PaymentRequestCreated {
    pub from: AccountId,
    pub to: AccountId,
    pub amount: Balance,
    pub request_id: u32,
}

/// Signal: a payment request was approved.
#[derive(Clone, Copy, Debug, PartialEq, Eq)]
pub struct PaymentRequestApproved {
    pub request_id: u32,
    pub from: AccountId,
    pub to: AccountId,
    pub amount: Balance,
}

/// Signal: funds were locked for a payment to another chain.
#[derive(Clone, Copy, Debug, PartialEq, Eq)]
pub struct CrossChainPaymentInitiated {
    pub transaction_id: u32,
    pub from: AccountId,
    pub to: AccountId,
    pub amount: Balance,
    pub destination_chain: u32,
}

/// The signals of the payment ledger, in the order they were emitted.
#[derive(Clone, Copy, Debug, PartialEq, Eq)]
pub enum PaymentEvent {
    Sent(PaymentSent),
    RequestCreated(PaymentRequestCreated),
    RequestApproved(PaymentRequestApproved),
    CrossChainInitiated(CrossChainPaymentInitiated),
}

/// A ledger of direct payments: a fixed supply minted to the owner, moved
/// between accounts in one step.
pub struct Payment {
    balances: BalanceLedger,
    transaction_counter: u32,
    request_counter: u32,
    total_supply: Balance,
    owner: AccountId,
    events: Vec<PaymentEvent>,
}

/// What `send_payment` and `initiate_cross_chain_payment` return: the checks in
/// order, then the transaction id.
pub open spec fn transfer_result(s: Payment, from: AccountId, to: AccountId, amount: Balance) -> Result<u32, Error> {
    if from == to {
        Err(Error::SelfPayment)
    } else if amount == 0 {
        Err(Error::InvalidAmount)
    } else if s.balance(from) < amount {
        Err(Error::InsufficientBalance)
    } else {
        Ok(s.transaction_counter())
    }
}

impl Payment {
    pub closed spec fn balances(&self) -> Map<AccountId, Balance> {
        self.balances@
    }

    pub open spec fn balance(&self, a: AccountId) -> Balance {
        if self.balances().contains_key(a) {
            self.balances()[a]
        } else {
            0
        }
    }

    pub closed spec fn transaction_counter(&self) -> u32 {
        self.transaction_counter
    }

    pub closed spec fn request_counter(&self) -> u32 {
        self.request_counter
    }

    pub closed spec fn total_supply(&self) -> Balance {
        self.total_supply
    }

    pub closed spec fn owner(&self) -> AccountId {
        self.owner
    }

    /// The signals emitted and not yet taken.
    pub closed spec fn events(&self) -> Seq<PaymentEvent> {
        self.events@
    }

    pub closed spec fn wf(&self) -> bool {
        self.balances.wf()
    }

    /// Mints `initial_supply` to `owner`.
    pub fn new(owner: AccountId, initial_supply: Balance) -> (r: Self)
        ensures
            r.wf(),
            r.balances() == map![owner => initial_supply],
            r.transaction_counter() == 0,
            r.request_counter() == 0,
            r.total_supply() == initial_supply,
            r.owner() == owner,
            r.events() == Seq::<PaymentEvent>::empty(),
    {
        let mut balances = BalanceLedger::new();
        balances.deposit(owner, initial_supply);
        let r = Payment {
            balances,
            transaction_counter: 0,
            request_counter: 0,
            total_supply: initial_supply,
            owner,
            events: Vec::new(),
        };
        assert(r.balances() =~= map![owner => initial_supply]);
        r
    }

    /// Mints the default supply to `owner`.
    pub fn default(owner: AccountId) -> (r: Self)
        ensures
            r.wf(),
            r.balances() == map![owner => DEFAULT_SUPPLY],
            r.transaction_counter() == 0,
            r.request_counter() == 0,
            r.total_supply() == DEFAULT_SUPPLY,
            r.owner() == owner,
            r.events() == Seq::<PaymentEvent>::empty(),
    {
        Self::new(owner, DEFAULT_SUPPLY)
    }

    /// Moves `amount` from `caller` to `to`; refused, with nothing changed, for a
    /// payment to oneself, then a zero amount, then a balance below the amount.
    pub fn send_payment(&mut self, caller: AccountId, to: AccountId, amount: Balance) -> (r: Result<u32, Error>)
        requires
            old(self).wf(),
        ensures
            final(self).wf(),
            r == transfer_result(*old(self), caller, to, amount),
            r is Err ==> *final(self) == *old(self),
            r is Ok ==> {
                &&& final(self).balances() == old(self).balances().insert(
                    caller,
                    (old(self).balance(caller) - amount) as Balance,
                ).insert(to, old(self).balance(to).saturating_add(amount))
                &&& final(self).transaction_counter() == old(self).transaction_counter().saturating_add(1)
                &&& final(self).request_counter() == old(self).request_counter()
                &&& final(self).total_supply() == old(self).total_supply()
                &&& final(self).owner() == old(self).owner()
                &&& final(self).events() == old(self).events().push(
                    PaymentEvent::Sent(
                        (PaymentSent { from: caller, to, amount, transaction_id: old(self).transaction_counter() }),
                    ),
                )
            },
    {
        if caller == to {
            return Err(Error::SelfPayment);
        }
        if amount == 0 {
            return Err(Error::InvalidAmount);
        }
        let from_balance = self.balances.balance_of(&caller);
        if from_balance < amount {
            return Err(Error::InsufficientBalance);
        }
        let locked = self.balances.lock(caller, amount);
        assert(locked);
        self.balances.release(to, amount);
        let transaction_id = self.transaction_counter;
        self.transaction_counter = self.transaction_counter.saturating_add(1);
        self.events.push(PaymentEvent::Sent(PaymentSent { from: caller, to, amount, transaction_id }));
        Ok(transaction_id)
    }

    /// Locks `amount` of `caller`'s funds for a payment to `to` on `destination_chain`;
    /// refused as `send_payment` is.
    pub fn initiate_cross_chain_payment(
        &mut self,
        caller: AccountId,
        to: AccountId,
        amount: Balance,
        destination_chain: u32,
    ) -> (r: Result<u32, Error>)
        requires
            old(self).wf(),
        ensures
            final(self).wf(),
            r == transfer_result(*old(self), caller, to, amount),
            r is Err ==> *final(self) == *old(self),
            r is Ok ==> {
                &&& final(self).balances() == old(self).balances().insert(
                    caller,
                    (old(self).balance(caller) - amount) as Balance,
                )
                &&& final(self).transaction_counter() == old(self).transaction_counter().saturating_add(1)
                &&& final(self).request_counter() == old(self).request_counter()
                &&& final(self).total_supply() == old(self).total_supply()
                &&& final(self).owner() == old(self).owner()
                &&& final(self).events() == old(self).events().push(
                    PaymentEvent::CrossChainInitiated(
                        (CrossChainPaymentInitiated {
                            transaction_id: old(self).transaction_counter(),
                            from: caller,
                            to,
                            amount,
                            destination_chain,
                        }),
                    ),
                )
            },
    {
        if caller == to {
            return Err(Error::SelfPayment);
        }
        if amount == 0 {
            return Err(Error::InvalidAmount);
        }
        let from_balance = self.balances.balance_of(&caller);
        if from_balance < amount {
            return Err(Error::InsufficientBalance);
        }
        let locked = self.balances.lock(caller, amount);
        assert(locked);
        let transaction_id = self.transaction_counter;
        self.transaction_counter = self.transaction_counter.saturating_add(1);
        self.events.push(
            PaymentEvent::CrossChainInitiated(
                CrossChainPaymentInitiated { transaction_id, from: caller, to, amount, destination_chain },
            ),
        );
        Ok(transaction_id)
    }

    pub fn balance_of(&self, account: AccountId) -> (r: Balance)
        requires
            self.wf(),
        ensures
            r == self.balance(account),
    {
        self.balances.balance_of(&account)
    }

    pub fn get_transaction_counter(&self) -> (r: u32)
        ensures
            r == self.transaction_counter(),
    {
        self.transaction_counter
    }

    pub fn get_request_counter(&self) -> (r: u32)
        ensures
            r == self.request_counter(),
    {
        self.request_counter
    }

    pub fn get_total_supply(&self) -> (r: Balance)
        ensures
            r == self.total_supply(),
    {
        self.total_supply
    }

    pub fn get_owner(&self) -> (r: AccountId)
        ensures
            r == self.owner(),
    {
        self.owner
    }

    /// Hands out the signals emitted so far, oldest first, and clears the log.
    pub fn take_events(&mut self) -> (r: Vec<PaymentEvent>)
        ensures
            r@ == old(self).events(),
            final(self).events() == Seq::<PaymentEvent>::empty(),
            final(self).balances() == old(self).balances(),
            final(self).transaction_counter() == old(self).transaction_counter(),
            final(self).request_counter() == old(self).request_counter(),
            final(self).total_supply() == old(self).total_supply(),
            final(self).owner() == old(self).owner(),
            final(self).wf() == old(self).wf(),
    {
        let mut out: Vec<PaymentEvent> = Vec::new();
        std::mem::swap(&mut out, &mut self.events);
        out
    }
}

} // verus!
