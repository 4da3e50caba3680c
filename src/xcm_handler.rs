use vstd::prelude::*;

use crate::account::{AccountId, Balance};
use crate::ledger::BalanceLedger;
use crate::registry::ChainRegistry;
use crate::store::{
    lemma_locked_amount_push, lemma_locked_amount_update, locked_amount, pending_count,
    PaymentRecord, PaymentStore,
};

verus! {

/// What a cross-chain payment is for; recorded and returned as given.
#[derive(Clone, Copy, Debug, PartialEq, Eq, Structural)]
pub enum XcmMessageType {
    Payment,
    BillSplitting,
    TokenTransfer,
    Refund,
}

/// Why an operation of the settlement engine was refused.
#[derive(Clone, Copy, Debug, PartialEq, Eq, Structural)]
pub enum Error {
    PaymentNotFound,
    UnauthorizedAccess,
    InvalidAmount,
    InvalidChain,
    AlreadyExecuted,
    InsufficientBalance,
    XcmExecutionFailed,
    InvalidDestination,
}

/// The source chain recorded on every payment: the engine does not detect
/// the chain a call came from.
pub const DEFAULT_SOURCE_CHAIN: u32 = 1000;

/// The chains supported from construction on.
pub const ROCOCO: u32 = 1000;
pub const WESTEND: u32 = 2000;
pub const KUSAMA: u32 = 3000;

/// Signal: a payment was created and the sender's funds were locked.
#[derive(Clone, Copy, Debug, PartialEq, Eq)]
pub struct CrossChainPaymentCreated {
    pub payment_id: u32,
    pub sender: AccountId,
    pub recipient: AccountId,
    pub amount: Balance,
    pub destination_chain: u32,
}

/// Signal: a payment was settled and its recipient credited.
#[derive(Clone, Copy, Debug, PartialEq, Eq)]
pub struct CrossChainPaymentExecuted {
    pub payment_id: u32,
    pub sender: AccountId,
    pub recipient: AccountId,
    pub amount: Balance,
    pub executor: AccountId,
}

/// Signal: the owner configured a chain.
#[derive(Clone, Copy, Debug, PartialEq, Eq)]
pub struct ChainConfigured {
    pub chain_id: u32,
    pub supported: bool,
    pub relayer: Option<AccountId>,
}

/// Signal: an account deposited funds.
#[derive(Clone, Copy, Debug, PartialEq, Eq)]
pub struct BalanceDeposited {
    pub account: AccountId,
    pub amount: Balance,
}

/// The signals of the engine, in the order they were emitted.
#[derive(Clone, Copy, Debug, PartialEq, Eq)]
pub enum XcmEvent {
    PaymentCreated(CrossChainPaymentCreated),
    PaymentExecuted(CrossChainPaymentExecuted),
    ChainConfigured(ChainConfigured),
    BalanceDeposited(BalanceDeposited),
}

/// The fields that `get_payment_info` reports of a record:
/// sender, recipient, amount, source chain, destination chain, executed.
pub open spec fn info_of(r: PaymentRecord) -> (AccountId, AccountId, Balance, u32, u32, bool) {
    (r.sender, r.recipient, r.amount, r.source_chain, r.destination_chain, r.executed)
}

/// What `create_cross_chain_payment` returns: the checks in order, then the next id.
pub open spec fn create_result(s: XcmHandler, caller: AccountId, amount: Balance, destination_chain: u32) -> Result<u32, Error> {
    if amount == 0 {
        Err(Error::InvalidAmount)
    } else if !s.chains().supports(destination_chain) {
        Err(Error::InvalidChain)
    } else if s.balance(caller) < amount {
        Err(Error::InsufficientBalance)
    } else {
        Ok(s.payments().len() as u32)
    }
}

/// How `create_cross_chain_payment` takes the engine from `s0` to `s1` with result `r`.
pub open spec fn create_post(
    s0: XcmHandler,
    caller: AccountId,
    now: u64,
    recipient: AccountId,
    amount: Balance,
    destination_chain: u32,
    message_type: XcmMessageType,
    r: Result<u32, Error>,
    s1: XcmHandler,
) -> bool {
    &&& r == create_result(s0, caller, amount, destination_chain)
    &&& r is Err ==> s1 == s0
    &&& r is Ok ==> {
        &&& s1.payments() == s0.payments().push(
            (PaymentRecord {
                sender: caller,
                recipient,
                amount,
                source_chain: DEFAULT_SOURCE_CHAIN,
                destination_chain,
                message_type,
                executed: false,
                timestamp: now,
            }),
        )
        &&& s1.balances() == s0.balances().insert(caller, (s0.balance(caller) - amount) as Balance)
        &&& s1.total_balances() == s0.total_balances() - amount
        &&& s1.chains() == s0.chains()
        &&& s1.owner() == s0.owner()
        &&& s1.total_deposited() == s0.total_deposited()
        &&& s1.events() == s0.events().push(
            XcmEvent::PaymentCreated(
                (CrossChainPaymentCreated {
                    payment_id: s0.payments().len() as u32,
                    sender: caller,
                    recipient,
                    amount,
                    destination_chain,
                }),
            ),
        )
    }
}

/// Whether `caller` may settle payments bound for `chain_id`: its bound relayer or the owner.
pub open spec fn may_settle(s: XcmHandler, caller: AccountId, chain_id: u32) -> bool {
    s.chains().relayer(chain_id) == Some(caller) || caller == s.owner()
}

/// What `execute_cross_chain_payment` returns.
pub open spec fn execute_result(s: XcmHandler, caller: AccountId, payment_id: u32) -> Result<(), Error> {
    if payment_id >= s.payments().len() {
        Err(Error::PaymentNotFound)
    } else if s.payments()[payment_id as int].executed {
        Err(Error::AlreadyExecuted)
    } else if !may_settle(s, caller, s.payments()[payment_id as int].destination_chain) {
        Err(Error::UnauthorizedAccess)
    } else {
        Ok(())
    }
}

/// How `execute_cross_chain_payment` takes the engine from `s0` to `s1` with result `r`.
pub open spec fn execute_post(s0: XcmHandler, caller: AccountId, payment_id: u32, r: Result<(), Error>, s1: XcmHandler) -> bool {
    let rec = s0.payments()[payment_id as int];
    &&& r == execute_result(s0, caller, payment_id)
    &&& r is Err ==> s1 == s0
    &&& r is Ok ==> {
        &&& s1.payments() == s0.payments().update(payment_id as int, (PaymentRecord { executed: true, ..rec }))
        &&& s1.balances() == s0.balances().insert(rec.recipient, s0.balance(rec.recipient).saturating_add(rec.amount))
        &&& s0.balance(rec.recipient) + rec.amount <= Balance::MAX ==> s1.total_balances() == s0.total_balances() + rec.amount
        &&& s1.chains() == s0.chains()
        &&& s1.owner() == s0.owner()
        &&& s1.total_deposited() == s0.total_deposited()
        &&& s1.events() == s0.events().push(
            XcmEvent::PaymentExecuted(
                (CrossChainPaymentExecuted {
                    payment_id,
                    sender: rec.sender,
                    recipient: rec.recipient,
                    amount: rec.amount,
                    executor: caller,
                }),
            ),
        )
    }
}

/// How `configure_chain` takes the engine from `s0` to `s1` with result `r`.
pub open spec fn configure_post(
    s0: XcmHandler,
    caller: AccountId,
    chain_id: u32,
    supported: bool,
    relayer: Option<AccountId>,
    r: Result<(), Error>,
    s1: XcmHandler,
) -> bool {
    &&& r == (if caller == s0.owner() { Ok(()) } else { Err(Error::UnauthorizedAccess) })
    &&& r is Err ==> s1 == s0
    &&& r is Ok ==> {
        &&& s1.chains().flags() == s0.chains().flags().insert(chain_id, supported)
        &&& s1.chains().relayers() == (match relayer {
            Some(a) => s0.chains().relayers().insert(chain_id, a),
            None => s0.chains().relayers(),
        })
        &&& s1.payments() == s0.payments()
        &&& s1.balances() == s0.balances()
        &&& s1.total_balances() == s0.total_balances()
        &&& s1.owner() == s0.owner()
        &&& s1.total_deposited() == s0.total_deposited()
        &&& s1.events() == s0.events().push(
            XcmEvent::ChainConfigured((ChainConfigured { chain_id, supported, relayer })),
        )
    }
}

/// How `deposit` takes the engine from `s0` to `s1`.
pub open spec fn deposit_post(s0: XcmHandler, caller: AccountId, amount: Balance, s1: XcmHandler) -> bool {
    &&& amount == 0 ==> s1 == s0
    &&& amount > 0 ==> {
        &&& s1.balances() == s0.balances().insert(caller, s0.balance(caller).saturating_add(amount))
        &&& s0.balance(caller) + amount <= Balance::MAX ==> s1.total_balances() == s0.total_balances() + amount
        &&& s1.total_deposited() == s0.total_deposited() + amount
        &&& s1.payments() == s0.payments()
        &&& s1.chains() == s0.chains()
        &&& s1.owner() == s0.owner()
        &&& s1.events() == s0.events().push(
            XcmEvent::BalanceDeposited((BalanceDeposited { account: caller, amount })),
        )
    }
}

/// The fields of `get_payment_info` for `payment_id`, if a record has that id.
pub open spec fn payment_info(s: XcmHandler, payment_id: u32) -> Option<(AccountId, AccountId, Balance, u32, u32, bool)> {
    if payment_id < s.payments().len() {
        Some(info_of(s.payments()[payment_id as int]))
    } else {
        None
    }
}

/// The two-phase settlement engine: payments are created (the sender's funds
/// are locked) and later executed by an authorized relayer (the recipient is
/// credited).
///
/// There is no timeout and no refund: funds locked by a payment that is never
/// executed stay locked. Balance arithmetic saturates instead of failing, so a
/// credit past the largest balance is clamped there; the conservation laws
/// below hold for calls that do not saturate.
pub struct XcmHandler {
    store: PaymentStore,
    registry: ChainRegistry,
    ledger: BalanceLedger,
    owner: AccountId,
    events: Vec<XcmEvent>,
    deposited: Ghost<int>,
}

impl XcmHandler {
    /// The payment records; a record's id is its index.
    pub closed spec fn payments(&self) -> Seq<PaymentRecord> {
        self.store@
    }

    /// The balance of every account that has one.
    pub closed spec fn balances(&self) -> Map<AccountId, Balance> {
        self.ledger@
    }

    pub closed spec fn chains(&self) -> ChainRegistry {
        self.registry
    }

    pub closed spec fn owner(&self) -> AccountId {
        self.owner
    }

    /// The signals emitted and not yet taken.
    pub closed spec fn events(&self) -> Seq<XcmEvent> {
        self.events@
    }

    /// The sum of all deposits ever made.
    pub closed spec fn total_deposited(&self) -> int {
        self.deposited@
    }

    /// The sum of all balances.
    pub closed spec fn total_balances(&self) -> int {
        self.ledger.total()
    }

    /// The sum of the amounts locked in payments not yet executed.
    pub open spec fn total_locked(&self) -> int {
        locked_amount(self.payments())
    }

    /// Balances and funds in flight together make up exactly what was deposited.
    pub open spec fn funds_conserved(&self) -> bool {
        self.total_balances() + self.total_locked() == self.total_deposited()
    }

    pub open spec fn balance(&self, a: AccountId) -> Balance {
        if self.balances().contains_key(a) {
            self.balances()[a]
        } else {
            0
        }
    }

    pub closed spec fn wf(&self) -> bool {
        &&& self.ledger.wf()
        &&& self.store.wf()
    }

    /// Creates an engine owned by `owner`, with Rococo, Westend and Kusama supported.
    pub fn new(owner: AccountId) -> (r: Self)
        ensures
            r.wf(),
            r.owner() == owner,
            r.payments() == Seq::<PaymentRecord>::empty(),
            r.balances() == Map::<AccountId, Balance>::empty(),
            r.chains().flags() == map![ROCOCO => true, WESTEND => true, KUSAMA => true],
            r.chains().relayers() == Map::<u32, AccountId>::empty(),
            r.events() == Seq::<XcmEvent>::empty(),
            r.total_deposited() == 0,
            r.funds_conserved(),
    {
        let mut registry = ChainRegistry::new();
        registry.configure(ROCOCO, true, None);
        registry.configure(WESTEND, true, None);
        registry.configure(KUSAMA, true, None);
        let r = XcmHandler {
            store: PaymentStore::new(),
            registry,
            ledger: BalanceLedger::new(),
            owner,
            events: Vec::new(),
            deposited: Ghost(0),
        };
        assert(r.chains().flags() =~= map![ROCOCO => true, WESTEND => true, KUSAMA => true]);
        r
    }

    /// The same as `new`.
    pub fn default(owner: AccountId) -> (r: Self)
        ensures
            r.wf(),
            r.owner() == owner,
            r.payments() == Seq::<PaymentRecord>::empty(),
            r.balances() == Map::<AccountId, Balance>::empty(),
            r.chains().flags() == map![ROCOCO => true, WESTEND => true, KUSAMA => true],
            r.chains().relayers() == Map::<u32, AccountId>::empty(),
            r.events() == Seq::<XcmEvent>::empty(),
            r.total_deposited() == 0,
            r.funds_conserved(),
    {
        Self::new(owner)
    }
    /// Phase one: records a payment from `caller` to `recipient` and locks its amount.
    /// Refused, with nothing changed, for a zero amount, then for an unsupported
    /// destination, then for a balance below the amount.
    pub fn create_cross_chain_payment(
        &mut self,
        caller: AccountId,
        now: u64,
        recipient: AccountId,
        amount: Balance,
        destination_chain: u32,
        message_type: XcmMessageType,
    ) -> (r: Result<u32, Error>)
        requires
            old(self).wf(),
            old(self).payments().len() < u32::MAX,
        ensures
            final(self).wf(),
            create_post(*old(self), caller, now, recipient, amount, destination_chain, message_type, r, *final(self)),
    {
        if amount == 0 {
            return Err(Error::InvalidAmount);
        }
        if !self.registry.is_supported(destination_chain) {
            return Err(Error::InvalidChain);
        }
        let sender_balance = self.ledger.balance_of(&caller);
        if sender_balance < amount {
            return Err(Error::InsufficientBalance);
        }
        let locked = self.ledger.lock(caller, amount);
        assert(locked);
        let record = PaymentRecord {
            sender: caller,
            recipient,
            amount,
            source_chain: DEFAULT_SOURCE_CHAIN,
            destination_chain,
            message_type,
            executed: false,
            timestamp: now,
        };
        let payment_id = self.store.append(record);
        self.events.push(
            XcmEvent::PaymentCreated(
                CrossChainPaymentCreated {
                    payment_id,
                    sender: caller,
                    recipient,
                    amount,
                    destination_chain,
                },
            ),
        );
        Ok(payment_id)
    }

    /// Phase two: settles payment `payment_id`, crediting its recipient, when
    /// `caller` is the relayer bound to its destination chain or the owner.
    pub fn execute_cross_chain_payment(&mut self, caller: AccountId, payment_id: u32) -> (r: Result<(), Error>)
        requires
            old(self).wf(),
        ensures
            final(self).wf(),
            execute_post(*old(self), caller, payment_id, r, *final(self)),
    {
        let record = match self.store.get(payment_id) {
            Some(rec) => rec,
            None => {
                return Err(Error::PaymentNotFound);
            },
        };
        if record.executed {
            return Err(Error::AlreadyExecuted);
        }
        let authorized = match self.registry.relayer_of(record.destination_chain) {
            Some(relayer) => relayer == caller,
            None => false,
        };
        if !authorized && caller != self.owner {
            return Err(Error::UnauthorizedAccess);
        }
        self.store.mark_executed(payment_id);
        self.ledger.release(record.recipient, record.amount);
        self.events.push(
            XcmEvent::PaymentExecuted(
                CrossChainPaymentExecuted {
                    payment_id,
                    sender: record.sender,
                    recipient: record.recipient,
                    amount: record.amount,
                    executor: caller,
                },
            ),
        );
        Ok(())
    }

    /// Sets whether `chain_id` is supported and, when given, its relayer; owner only.
    pub fn configure_chain(
        &mut self,
        caller: AccountId,
        chain_id: u32,
        supported: bool,
        relayer: Option<AccountId>,
    ) -> (r: Result<(), Error>)
        requires
            old(self).wf(),
        ensures
            final(self).wf(),
            configure_post(*old(self), caller, chain_id, supported, relayer, r, *final(self)),
    {
        if caller != self.owner {
            return Err(Error::UnauthorizedAccess);
        }
        self.registry.configure(chain_id, supported, relayer);
        self.events.push(XcmEvent::ChainConfigured(ChainConfigured { chain_id, supported, relayer }));
        Ok(())
    }

    /// Credits `amount` to `caller`; a zero amount does nothing.
    pub fn deposit(&mut self, caller: AccountId, amount: Balance)
        requires
            old(self).wf(),
        ensures
            final(self).wf(),
            deposit_post(*old(self), caller, amount, *final(self)),
    {
        if amount > 0 {
            self.ledger.deposit(caller, amount);
            self.deposited = Ghost(self.deposited@ + amount);
            self.events.push(
                XcmEvent::BalanceDeposited(BalanceDeposited { account: caller, amount }),
            );
        }
    }

    pub fn get_payment_info(&self, payment_id: u32) -> (r: Option<(AccountId, AccountId, Balance, u32, u32, bool)>)
        ensures
            r == payment_info(*self, payment_id),
    {
        match self.store.get(payment_id) {
            Some(rec) => Some(
                (rec.sender, rec.recipient, rec.amount, rec.source_chain, rec.destination_chain, rec.executed),
            ),
            None => None,
        }
    }

    pub fn get_balance(&self, account: AccountId) -> (r: Balance)
        requires
            self.wf(),
        ensures
            r == self.balance(account),
    {
        self.ledger.balance_of(&account)
    }

    pub fn is_chain_supported(&self, chain_id: u32) -> (r: bool)
        ensures
            r == self.chains().supports(chain_id),
    {
        self.registry.is_supported(chain_id)
    }

    /// How many payments name `user` as sender or recipient and are not executed,
    /// by a scan over every record.
    pub fn get_pending_payments_count(&self, user: AccountId) -> (r: u32)
        requires
            self.wf(),
        ensures
            r == pending_count(self.payments(), user),
    {
        self.store.pending_count_for(&user)
    }

    /// The number of payments created so far, which is the next id.
    pub fn get_payment_counter(&self) -> (r: u32)
        requires
            self.wf(),
        ensures
            r == self.payments().len(),
    {
        self.store.count()
    }

    pub fn get_owner(&self) -> (r: AccountId)
        ensures
            r == self.owner(),
    {
        self.owner
    }

    /// Hands out the signals emitted so far, oldest first, and clears the log.
    pub fn take_events(&mut self) -> (r: Vec<XcmEvent>)
        ensures
            r@ == old(self).events(),
            final(self).events() == Seq::<XcmEvent>::empty(),
            final(self).payments() == old(self).payments(),
            final(self).balances() == old(self).balances(),
            final(self).chains() == old(self).chains(),
            final(self).owner() == old(self).owner(),
            final(self).wf() == old(self).wf(),
    {
        let mut out: Vec<XcmEvent> = Vec::new();
        std::mem::swap(&mut out, &mut self.events);
        out
    }
}

/// One call into the engine, with what its environment supplies.
#[derive(Clone, Copy, Debug)]
pub enum Call {
    Create {
        caller: AccountId,
        now: u64,
        recipient: AccountId,
        amount: Balance,
        destination_chain: u32,
        message_type: XcmMessageType,
    },
    Execute { caller: AccountId, payment_id: u32 },
    Configure { caller: AccountId, chain_id: u32, supported: bool, relayer: Option<AccountId> },
    Deposit { caller: AccountId, amount: Balance },
}

/// Whether call `c` takes the engine from `s0` to `s1`.
pub open spec fn step(s0: XcmHandler, c: Call, s1: XcmHandler) -> bool {
    match c {
        Call::Create { caller, now, recipient, amount, destination_chain, message_type } => {
            &&& s0.payments().len() < u32::MAX
            &&& create_post(
                s0,
                caller,
                now,
                recipient,
                amount,
                destination_chain,
                message_type,
                create_result(s0, caller, amount, destination_chain),
                s1,
            )
        },
        Call::Execute { caller, payment_id } => execute_post(
            s0,
            caller,
            payment_id,
            execute_result(s0, caller, payment_id),
            s1,
        ),
        Call::Configure { caller, chain_id, supported, relayer } => configure_post(
            s0,
            caller,
            chain_id,
            supported,
            relayer,
            if caller == s0.owner() {
                Ok(())
            } else {
                Err(Error::UnauthorizedAccess)
            },
            s1,
        ),
        Call::Deposit { caller, amount } => deposit_post(s0, caller, amount, s1),
    }
}

/// Whether call `c` on `s0` adds to a balance past the largest value, where the
/// addition saturates.
pub open spec fn saturates(s0: XcmHandler, c: Call) -> bool {
    match c {
        Call::Execute { payment_id, .. } => payment_id < s0.payments().len() && s0.balance(
            s0.payments()[payment_id as int].recipient,
        ) + s0.payments()[payment_id as int].amount > Balance::MAX,
        Call::Deposit { caller, amount } => s0.balance(caller) + amount > Balance::MAX,
        _ => false,
    }
}

/// Whether `states` is a run of `calls`: call `i` takes state `i` to state `i + 1`.
pub open spec fn is_run(states: Seq<XcmHandler>, calls: Seq<Call>) -> bool {
    &&& states.len() == calls.len() + 1
    &&& forall|i: int|
        #![trigger calls[i]]
        0 <= i < calls.len() ==> step(states[i], calls[i], states[i + 1])
}

/// A call that saturates no balance keeps the sum of balances and locked funds
/// equal to the sum of deposits.
pub proof fn lemma_step_conserves_funds(s0: XcmHandler, c: Call, s1: XcmHandler)
    requires
        step(s0, c, s1),
        s0.funds_conserved(),
        !saturates(s0, c),
    ensures
        s1.funds_conserved(),
{
    match c {
        Call::Create { caller, now, recipient, amount, destination_chain, message_type } => {
            if create_result(s0, caller, amount, destination_chain) is Ok {
                lemma_locked_amount_push(
                    s0.payments(),
                    PaymentRecord {
                        sender: caller,
                        recipient,
                        amount,
                        source_chain: DEFAULT_SOURCE_CHAIN,
                        destination_chain,
                        message_type,
                        executed: false,
                        timestamp: now,
                    },
                );
            }
        },
        Call::Execute { caller, payment_id } => {
            if execute_result(s0, caller, payment_id) is Ok {
                let rec = s0.payments()[payment_id as int];
                lemma_locked_amount_update(
                    s0.payments(),
                    payment_id as int,
                    PaymentRecord { executed: true, ..rec },
                );
            }
        },
        _ => {},
    }
}

/// Over any run of calls that saturate no balance, starting where balances and
/// locked funds make up the deposits (as every new engine does), every balance
/// plus every amount still locked in a pending payment sums to all deposits made.
pub proof fn lemma_funds_conserved(states: Seq<XcmHandler>, calls: Seq<Call>)
    requires
        is_run(states, calls),
        states[0].funds_conserved(),
        forall|i: int| 0 <= i < calls.len() ==> !saturates(states[i], #[trigger] calls[i]),
    ensures
        states.last().funds_conserved(),
    decreases calls.len(),
{
    if calls.len() > 0 {
        let n = calls.len() - 1;
        let s = states.drop_last();
        let cs = calls.drop_last();
        assert forall|i: int| #![trigger cs[i]] 0 <= i < cs.len() implies step(s[i], cs[i], s[i + 1]) by {
            assert(calls[i] == cs[i]);
        }
        assert forall|i: int| 0 <= i < cs.len() implies !saturates(s[i], #[trigger] cs[i]) by {
            assert(calls[i] == cs[i]);
        }
        lemma_funds_conserved(s, cs);
        assert(calls[n] == calls[n]);
        lemma_step_conserves_funds(states[n], calls[n], states[n + 1]);
    }
}

/// An execute call by an account that is neither the relayer bound to the payment's
/// destination chain nor the owner changes nothing and fails; for a payment that
/// exists and is still pending it fails with `UnauthorizedAccess`.
pub proof fn lemma_authorization_gate(s0: XcmHandler, caller: AccountId, payment_id: u32, r: Result<(), Error>, s1: XcmHandler)
    requires
        execute_post(s0, caller, payment_id, r, s1),
        payment_id < s0.payments().len() ==> !may_settle(s0, caller, s0.payments()[payment_id as int].destination_chain),
    ensures
        r is Err,
        s1 == s0,
        payment_id < s0.payments().len() && !s0.payments()[payment_id as int].executed ==> r
            == Err::<(), Error>(Error::UnauthorizedAccess),
{
}

/// No call turns an executed payment back into a pending one.
pub proof fn lemma_executed_stays_executed(s0: XcmHandler, c: Call, s1: XcmHandler, payment_id: u32)
    requires
        step(s0, c, s1),
        payment_id < s0.payments().len(),
        s0.payments()[payment_id as int].executed,
    ensures
        payment_id < s1.payments().len(),
        s1.payments()[payment_id as int].executed,
{
}

proof fn lemma_executed_persists(states: Seq<XcmHandler>, calls: Seq<Call>, payment_id: u32, from: int, to: int)
    requires
        is_run(states, calls),
        0 <= from <= to <= calls.len(),
        payment_id < states[from].payments().len(),
        states[from].payments()[payment_id as int].executed,
    ensures
        payment_id < states[to].payments().len(),
        states[to].payments()[payment_id as int].executed,
    decreases to - from,
{
    if from < to {
        assert(calls[from] == calls[from]);
        lemma_executed_stays_executed(states[from], calls[from], states[from + 1], payment_id);
        lemma_executed_persists(states, calls, payment_id, from + 1, to);
    }
}

/// Once an execute call on a payment has succeeded, every later execute call on it,
/// after any calls in between, returns `AlreadyExecuted` and changes nothing.
pub proof fn lemma_settled_at_most_once(states: Seq<XcmHandler>, calls: Seq<Call>, i: int, j: int)
    requires
        is_run(states, calls),
        0 <= i < j < calls.len(),
        calls[i] is Execute,
        calls[j] is Execute,
        calls[i]->Execute_payment_id == calls[j]->Execute_payment_id,
        execute_result(states[i], calls[i]->Execute_caller, calls[i]->Execute_payment_id) is Ok,
    ensures
        execute_result(states[j], calls[j]->Execute_caller, calls[j]->Execute_payment_id)
            == Err::<(), Error>(Error::AlreadyExecuted),
        states[j + 1] == states[j],
{
    let id = calls[i]->Execute_payment_id;
    assert(step(states[i], calls[i], states[i + 1]));
    lemma_executed_persists(states, calls, id, i + 1, j);
    assert(step(states[j], calls[j], states[j + 1]));
}

/// A query for an id that no payment has keeps answering "not found" after any
/// call that does not create the payment with that id.
pub proof fn lemma_absent_payment_stays_absent(s0: XcmHandler, c: Call, s1: XcmHandler, payment_id: u32)
    requires
        step(s0, c, s1),
        payment_info(s0, payment_id) is None,
        match c {
            Call::Create { caller, amount, destination_chain, .. } => create_result(
                s0,
                caller,
                amount,
                destination_chain,
            ) != Ok::<u32, Error>(payment_id),
            _ => true,
        },
    ensures
        payment_info(s1, payment_id) is None,
{
}

} // verus!
