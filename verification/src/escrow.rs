use vstd::prelude::*;
use crate::address::Address;
use crate::ledger::{Ledger, can_transfer, transfer_effect};

verus! {

broadcast use crate::ledger::Ledger::lemma_balances_index;

/// Lifecycle of one escrow instance. `Released` and `Refunded` are terminal:
/// no mutating operation succeeds once either is reached.
#[derive(Clone, Copy, PartialEq, Eq, Structural, Debug)]
pub enum Status {
    AwaitingDeposit,
    Funded,
    Released,
    Refunded,
}

/// The keys under which the host persists one instance's record. `initialize`
/// writes all of them in one call, so each is present exactly when the
/// instance exists.
#[derive(Clone, Copy, PartialEq, Eq, Structural, Debug)]
pub enum DataKey {
    Patient,
    Specialist,
    Arbiter,
    Token,
    Amount,
    Status,
}

/// Why an escrow operation was rejected. Every error aborts the whole
/// operation: no status change, no fund movement, no event.
#[derive(Clone, Copy, PartialEq, Eq, Structural, Debug)]
pub enum Error {
    AlreadyInitialized,
    InvalidAmount,
    Unauthorized,
    InvalidState,
    TransferFailed,
}

/// The record persisted for one escrow instance. The three roles, the asset
/// and the amount are set once at initialization and never change; only
/// `status` advances.
#[derive(Clone, Copy, PartialEq, Eq, Structural, Debug)]
pub struct EscrowInstance {
    pub patient: Address,
    pub specialist: Address,
    pub arbiter: Address,
    pub token: Address,
    pub amount: i128,
    pub status: Status,
}

/// One record of the append-only notification log, emitted after each
/// successful mutating call.
#[derive(Clone, Copy, PartialEq, Eq, Structural, Debug)]
pub enum Event {
    Deposit { patient: Address, amount: i128 },
    RequestRelease { specialist: Address },
    Release { specialist: Address, amount: i128 },
    Refund { arbiter: Address, patient: Address, amount: i128 },
}

/// The five operations available once an instance exists.
#[derive(Clone, Copy, PartialEq, Eq, Structural, Debug)]
pub enum Op {
    Deposit,
    RequestRelease,
    ConfirmRelease,
    ForceRelease,
    ForceRefund,
}

/// Everything one escrow call may read or change: the contract's custody
/// address and persisted record, the ledger's balances, and the event log.
pub struct SysState {
    pub contract: Address,
    pub inst: Option<EscrowInstance>,
    pub bal: Map<Address, int>,
    pub events: Seq<Event>,
}

/// The role that must be the authenticated caller of `op`.
pub open spec fn required_role(i: EscrowInstance, op: Op) -> Address {
    match op {
        Op::Deposit => i.patient,
        Op::RequestRelease => i.specialist,
        Op::ConfirmRelease => i.patient,
        Op::ForceRelease => i.arbiter,
        Op::ForceRefund => i.arbiter,
    }
}

/// The status the instance must be in for `op` to do its work.
pub open spec fn required_status(op: Op) -> Status {
    match op {
        Op::Deposit => Status::AwaitingDeposit,
        Op::RequestRelease => Status::Funded,
        Op::ConfirmRelease => Status::Funded,
        Op::ForceRelease => Status::Funded,
        Op::ForceRefund => Status::Funded,
    }
}

/// The outcome of one operation: authorization is checked first, then the
/// status precondition, then the fund movement.
pub open spec fn step_result(s: SysState, op: Op, caller: Address) -> Result<(), Error> {
    match s.inst {
        None => Err(Error::InvalidState),
        Some(i) => if caller != required_role(i, op) {
            Err(Error::Unauthorized)
        } else if i.status != required_status(op) {
            Err(Error::InvalidState)
        } else {
            match op {
                Op::RequestRelease => Ok(()),
                Op::Deposit => if can_transfer(s.bal, i.patient, s.contract, i.amount as int) {
                    Ok(())
                } else {
                    Err(Error::TransferFailed)
                },
                Op::ConfirmRelease | Op::ForceRelease => if can_transfer(s.bal, s.contract, i.specialist, i.amount as int) {
                    Ok(())
                } else {
                    Err(Error::TransferFailed)
                },
                Op::ForceRefund => if can_transfer(s.bal, s.contract, i.patient, i.amount as int) {
                    Ok(())
                } else {
                    Err(Error::TransferFailed)
                },
            }
        },
    }
}

/// The state after one operation. A failed operation changes nothing; a
/// successful one advances the status, moves exactly the custody amount, and
/// appends exactly one event.
pub open spec fn step(s: SysState, op: Op, caller: Address) -> SysState {
    match s.inst {
        None => s,
        Some(i) => if step_result(s, op, caller) is Ok {
            match op {
                Op::Deposit => SysState {
                    inst: Some(EscrowInstance { status: Status::Funded, ..i }),
                    bal: transfer_effect(s.bal, i.patient, s.contract, i.amount as int),
                    events: s.events.push(Event::Deposit { patient: i.patient, amount: i.amount }),
                    ..s
                },
                Op::RequestRelease => SysState {
                    events: s.events.push(Event::RequestRelease { specialist: i.specialist }),
                    ..s
                },
                Op::ConfirmRelease | Op::ForceRelease => SysState {
                    inst: Some(EscrowInstance { status: Status::Released, ..i }),
                    bal: transfer_effect(s.bal, s.contract, i.specialist, i.amount as int),
                    events: s.events.push(Event::Release { specialist: i.specialist, amount: i.amount }),
                    ..s
                },
                Op::ForceRefund => SysState {
                    inst: Some(EscrowInstance { status: Status::Refunded, ..i }),
                    bal: transfer_effect(s.bal, s.contract, i.patient, i.amount as int),
                    events: s.events.push(Event::Refund { arbiter: i.arbiter, patient: i.patient, amount: i.amount }),
                    ..s
                },
            }
        } else {
            s
        },
    }
}

/// One call made against an instance: which operation, and who made it.
pub struct OpCall {
    pub op: Op,
    pub caller: Address,
}

/// The state after a whole sequence of calls, applied oldest first.
pub open spec fn run(s: SysState, calls: Seq<OpCall>) -> SysState
    decreases calls.len(),
{
    if calls.len() == 0 {
        s
    } else {
        run(step(s, calls[0].op, calls[0].caller), calls.drop_first())
    }
}

/// Role gating: whatever the operation and the instance's status, a caller
/// other than the operation's required role is turned away with
/// `Unauthorized`, and nothing — record, balances or log — changes.
pub proof fn lemma_role_gating(s: SysState, op: Op, caller: Address)
    requires
        s.inst matches Some(i) && caller != required_role(i, op),
    ensures
        step_result(s, op, caller) == Err::<(), Error>(Error::Unauthorized),
        step(s, op, caller) == s,
{
}

/// State gating: the required role calling outside the operation's required
/// status is turned away with `InvalidState`, and nothing changes.
pub proof fn lemma_state_gating(s: SysState, op: Op, caller: Address)
    requires
        s.inst matches Some(i) && caller == required_role(i, op) && i.status != required_status(op),
    ensures
        step_result(s, op, caller) == Err::<(), Error>(Error::InvalidState),
        step(s, op, caller) == s,
{
}

/// A deposit goes through exactly when the patient calls it, the instance
/// still awaits its deposit, and the ledger can cover the transfer.
pub proof fn lemma_deposit_success_iff(s: SysState, caller: Address)
    ensures
        step_result(s, Op::Deposit, caller) is Ok <==> (s.inst matches Some(i) && caller == i.patient
            && i.status == Status::AwaitingDeposit
            && can_transfer(s.bal, i.patient, s.contract, i.amount as int)),
{
}

/// A deposit succeeds at most once per instance: after a successful deposit,
/// any further deposit fails, with `InvalidState` when the patient retries.
pub proof fn lemma_deposit_once(s: SysState, caller: Address, later_caller: Address)
    requires
        step_result(s, Op::Deposit, caller) is Ok,
    ensures
        step_result(step(s, Op::Deposit, caller), Op::Deposit, later_caller) is Err,
        s.inst matches Some(i) && later_caller == i.patient
            ==> step_result(step(s, Op::Deposit, caller), Op::Deposit, later_caller)
                == Err::<(), Error>(Error::InvalidState),
{
}

/// Terminal states absorb: once `Released` or `Refunded`, every operation by
/// every caller fails, and record, balances and log are all left untouched.
pub proof fn lemma_terminal_absorbing(s: SysState, op: Op, caller: Address)
    requires
        s.inst matches Some(i) && (i.status is Released || i.status is Refunded),
    ensures
        step_result(s, op, caller) is Err,
        step(s, op, caller) == s,
{
}

/// A whole sequence of calls leaves a terminal instance untouched.
pub proof fn lemma_terminal_absorbing_run(s: SysState, calls: Seq<OpCall>)
    requires
        s.inst matches Some(i) && (i.status is Released || i.status is Refunded),
    ensures
        run(s, calls) == s,
    decreases calls.len(),
{
    if calls.len() > 0 {
        lemma_terminal_absorbing(s, calls[0].op, calls[0].caller);
        lemma_terminal_absorbing_run(s, calls.drop_first());
    }
}

/// The parts of a snapshot that no operation may change: the custody address,
/// the fact of being initialized, the roles, the asset and the amount.
pub open spec fn same_instance(pre: SysState, post: SysState) -> bool {
    &&& post.contract == pre.contract
    &&& pre.inst is None ==> post.inst is None
    &&& pre.inst matches Some(i) ==> post.inst matches Some(j) && j.patient == i.patient
        && j.specialist == i.specialist && j.arbiter == i.arbiter && j.token == i.token
        && j.amount == i.amount && status_edge(i.status, j.status)
}

/// The edges the status may move along: stand still, fund an awaited deposit,
/// or settle a funded instance one way or the other. It never regresses.
pub open spec fn status_edge(pre: Status, post: Status) -> bool {
    ||| pre == post
    ||| (pre is AwaitingDeposit && post is Funded)
    ||| (pre is Funded && (post is Released || post is Refunded))
}

/// Every operation keeps the custody address and the immutable fields, only
/// advances the status along its edges, and only appends to the event log.
pub proof fn lemma_step_edges(s: SysState, op: Op, caller: Address)
    ensures
        same_instance(s, step(s, op, caller)),
        s.events.is_prefix_of(step(s, op, caller).events),
{
    assert(s.events.is_prefix_of(s.events));
}

/// Custody matches the status: a funded instance's custody account holds
/// exactly the custody amount, and otherwise it holds nothing.
pub open spec fn custody_ok(s: SysState) -> bool {
    s.inst matches Some(i) ==> s.bal[s.contract] == (if i.status is Funded {
        i.amount as int
    } else {
        0
    })
}

/// The custody account is not itself one of the paying or receiving parties.
pub open spec fn custody_separate(s: SysState) -> bool {
    s.inst matches Some(i) ==> i.patient != s.contract && i.specialist != s.contract
}

/// Custody tracking survives every operation, as long as the custody account
/// is a party to no side of the transfers it holds funds for.
pub proof fn lemma_custody_preserved(s: SysState, op: Op, caller: Address)
    requires
        custody_ok(s),
        custody_separate(s),
    ensures
        custody_ok(step(s, op, caller)),
        custody_separate(step(s, op, caller)),
{
    lemma_step_edges(s, op, caller);
}

/// Custody tracking survives any whole sequence of calls.
pub proof fn lemma_custody_preserved_run(s: SysState, calls: Seq<OpCall>)
    requires
        custody_ok(s),
        custody_separate(s),
    ensures
        custody_ok(run(s, calls)),
        custody_separate(run(s, calls)),
    decreases calls.len(),
{
    if calls.len() > 0 {
        lemma_custody_preserved(s, calls[0].op, calls[0].caller);
        lemma_custody_preserved_run(step(s, calls[0].op, calls[0].caller), calls.drop_first());
    }
}

/// The patient, the specialist and the custody account are three different
/// accounts. Conservation is stated under this hypothesis: if two of them
/// coincide, "the amount that left custody" is not a single account's delta.
pub open spec fn parties_distinct(s: SysState) -> bool {
    s.inst matches Some(i) ==> i.patient != i.specialist && i.patient != s.contract
        && i.specialist != s.contract
}

/// Conservation, relative to the balances `b0` the world had when the
/// instance was created: across the whole lifecycle the patient has paid the
/// custody amount exactly while the instance is funded or released, the
/// specialist has received it exactly once the instance is released, and no
/// other account outside custody ever moves.
pub open spec fn conserved(b0: Map<Address, int>, s: SysState) -> bool {
    s.inst matches Some(i) ==> {
        &&& s.bal[i.patient] == b0[i.patient] - (match i.status {
            Status::AwaitingDeposit => 0,
            Status::Funded => i.amount as int,
            Status::Released => i.amount as int,
            Status::Refunded => 0,
        })
        &&& s.bal[i.specialist] == b0[i.specialist] + (if i.status is Released {
            i.amount as int
        } else {
            0
        })
        &&& forall|a: Address| a != i.patient && a != i.specialist && a != s.contract
            ==> s.bal[a] == b0[a]
    }
}

/// One operation keeps the conservation ledger relative to `b0`.
pub proof fn lemma_conservation_preserved(b0: Map<Address, int>, s: SysState, op: Op, caller: Address)
    requires
        conserved(b0, s),
        parties_distinct(s),
    ensures
        conserved(b0, step(s, op, caller)),
        parties_distinct(step(s, op, caller)),
{
    lemma_step_edges(s, op, caller);
}

/// Conservation across any whole sequence of calls: starting from the moment
/// of initialization, the total that ever leaves the contract's custody is the
/// custody amount, paid exactly once — to the specialist if the instance ends
/// `Released`, back to the patient if it ends `Refunded` — and never both,
/// never more, never less; every uninvolved account keeps its balance.
pub proof fn lemma_conservation_run(b0: Map<Address, int>, s: SysState, calls: Seq<OpCall>)
    requires
        conserved(b0, s),
        parties_distinct(s),
    ensures
        conserved(b0, run(s, calls)),
        parties_distinct(run(s, calls)),
    decreases calls.len(),
{
    if calls.len() > 0 {
        lemma_conservation_preserved(b0, s, calls[0].op, calls[0].caller);
        lemma_conservation_run(b0, step(s, calls[0].op, calls[0].caller), calls.drop_first());
    }
}

/// A freshly initialized instance, before any deposit, satisfies both custody
/// tracking and conservation relative to the balances it was created over.
pub proof fn lemma_initial_invariants(b0: Map<Address, int>, s: SysState)
    requires
        s.inst matches Some(i) && i.status is AwaitingDeposit,
        s.bal == b0,
        b0[s.contract] == 0,
        parties_distinct(s),
    ensures
        custody_ok(s),
        custody_separate(s),
        conserved(b0, s),
{
}

/// One escrow contract: its custody address, its persisted record, and the
/// notifications it has emitted.
pub struct EscrowContract {
    address: Address,
    state: Option<EscrowInstance>,
    events: Vec<Event>,
}

impl EscrowContract {
    /// The contract's own custody account.
    pub closed spec fn spec_address(&self) -> Address {
        self.address
    }

    /// The persisted record, if the instance was initialized.
    pub closed spec fn spec_state(&self) -> Option<EscrowInstance> {
        self.state
    }

    /// All notifications emitted so far, oldest first.
    pub closed spec fn spec_events(&self) -> Seq<Event> {
        self.events@
    }

    /// The custody amount of an initialized instance is always positive.
    pub open spec fn wf(&self) -> bool {
        self.spec_state() matches Some(i) ==> i.amount > 0
    }

    /// This contract and the ledger it acts on, as one snapshot.
    pub open spec fn sys(self, ledger: Ledger) -> SysState {
        SysState {
            contract: self.spec_address(),
            inst: self.spec_state(),
            bal: ledger.balances(),
            events: self.spec_events(),
        }
    }

    /// A deployed, not yet initialized contract with custody account `address`.
    pub fn new(address: Address) -> (r: EscrowContract)
        ensures
            r.wf(),
            r.spec_address() == address,
            r.spec_state() is None,
            r.spec_events() == Seq::<Event>::empty(),
    {
        EscrowContract { address, state: None, events: Vec::new() }
    }

    /// The contract's custody account, readable by anyone.
    pub fn address(&self) -> (r: Address)
        ensures
            r == self.spec_address(),
    {
        self.address
    }

    /// The persisted record, readable by anyone without authorization.
    pub fn state(&self) -> (r: Option<EscrowInstance>)
        ensures
            r == self.spec_state(),
    {
        self.state
    }

    /// The current status, readable by anyone without authorization.
    pub fn status(&self) -> (r: Option<Status>)
        ensures
            match self.spec_state() {
                Some(i) => r == Some(i.status),
                None => r is None,
            },
    {
        match self.state {
            Some(i) => Some(i.status),
            None => None,
        }
    }

    /// The emitted notifications, oldest first.
    pub fn events(&self) -> (r: &Vec<Event>)
        ensures
            r@ == self.spec_events(),
    {
        &self.events
    }

    /// Whether the host store holds a value under `key`. `initialize` writes
    /// every key at once, so each is present exactly when the instance exists.
    pub fn has_entry(&self, key: DataKey) -> (r: bool)
        ensures
            r == (self.spec_state() is Some),
    {
        match key {
            DataKey::Patient
            | DataKey::Specialist
            | DataKey::Arbiter
            | DataKey::Token
            | DataKey::Amount
            | DataKey::Status => self.state.is_some(),
        }
    }

    /// One-time setup: persists the three roles, the asset and the custody
    /// amount, and puts the instance in `AwaitingDeposit`. A second call
    /// always fails and changes nothing; a non-positive amount is rejected
    /// and creates no instance.
    pub fn initialize(
        &mut self,
        patient: Address,
        specialist: Address,
        arbiter: Address,
        token: Address,
        amount: i128,
    ) -> (r: Result<(), Error>)
        requires
            old(self).wf(),
        ensures
            final(self).wf(),
            final(self).spec_address() == old(self).spec_address(),
            final(self).spec_events() == old(self).spec_events(),
            old(self).spec_state() is Some ==> r == Err::<(), Error>(Error::AlreadyInitialized)
                && final(self).spec_state() == old(self).spec_state(),
            old(self).spec_state() is None && amount <= 0 ==> r == Err::<(), Error>(Error::InvalidAmount)
                && final(self).spec_state() is None,
            old(self).spec_state() is None && amount > 0 ==> r == Ok::<(), Error>(())
                && final(self).spec_state() == Some(EscrowInstance {
                    patient,
                    specialist,
                    arbiter,
                    token,
                    amount,
                    status: Status::AwaitingDeposit,
                }),
    {
        if self.has_entry(DataKey::Status) {
            return Err(Error::AlreadyInitialized);
        }
        if amount <= 0 {
            return Err(Error::InvalidAmount);
        }
        self.state = Some(EscrowInstance {
            patient,
            specialist,
            arbiter,
            token,
            amount,
            status: Status::AwaitingDeposit,
        });
        Ok(())
    }

    /// Pulls the custody amount from the patient into the contract's custody
    /// account and marks the instance `Funded`. Only the patient may call it,
    /// only while the instance awaits its deposit.
    pub fn deposit(&mut self, ledger: &mut Ledger, caller: Address) -> (r: Result<(), Error>)
        requires
            old(self).wf(),
            old(ledger).wf(),
            old(self).spec_state() is Some,
            old(self).spec_state() matches Some(i) ==> i.token == old(ledger).spec_token(),
        ensures
            final(self).wf(),
            final(ledger).wf(),
            final(self).spec_address() == old(self).spec_address(),
            final(ledger).spec_token() == old(ledger).spec_token(),
            r == step_result(old(self).sys(*old(ledger)), Op::Deposit, caller),
            final(self).spec_state() == step(old(self).sys(*old(ledger)), Op::Deposit, caller).inst,
            final(self).spec_events() == step(old(self).sys(*old(ledger)), Op::Deposit, caller).events,
            forall|a: Address| final(ledger).spec_balance(a)
                == step(old(self).sys(*old(ledger)), Op::Deposit, caller).bal[a],
    {
        let inst = self.state.unwrap();
        if caller != inst.patient {
            return Err(Error::Unauthorized);
        }
        if inst.status != Status::AwaitingDeposit {
            return Err(Error::InvalidState);
        }
        let contract_address = self.address;
        match ledger.transfer(caller, contract_address, inst.amount) {
            Err(_) => Err(Error::TransferFailed),
            Ok(()) => {
                self.state = Some(EscrowInstance { status: Status::Funded, ..inst });
                self.events.push(Event::Deposit { patient: inst.patient, amount: inst.amount });
                Ok(())
            },
        }
    }

    /// Puts the specialist's claim of completion on record. No state or fund
    /// change: it emits the notification the patient is expected to act on.
    pub fn request_release(&mut self, caller: Address) -> (r: Result<(), Error>)
        requires
            old(self).wf(),
            old(self).spec_state() is Some,
        ensures
            final(self).wf(),
            final(self).spec_address() == old(self).spec_address(),
            final(self).spec_state() == old(self).spec_state(),
            old(self).spec_state() matches Some(i) ==> {
                &&& caller != i.specialist ==> r == Err::<(), Error>(Error::Unauthorized)
                    && final(self).spec_events() == old(self).spec_events()
                &&& caller == i.specialist && i.status != Status::Funded
                    ==> r == Err::<(), Error>(Error::InvalidState)
                        && final(self).spec_events() == old(self).spec_events()
                &&& caller == i.specialist && i.status == Status::Funded
                    ==> r == Ok::<(), Error>(()) && final(self).spec_events()
                        == old(self).spec_events().push(Event::RequestRelease { specialist: i.specialist })
            },
    {
        let inst = self.state.unwrap();
        if caller != inst.specialist {
            return Err(Error::Unauthorized);
        }
        if inst.status != Status::Funded {
            return Err(Error::InvalidState);
        }
        self.events.push(Event::RequestRelease { specialist: inst.specialist });
        Ok(())
    }

    /// The patient confirms completion: pays the custody amount to the
    /// specialist and marks the instance `Released`.
    pub fn confirm_release(&mut self, ledger: &mut Ledger, caller: Address) -> (r: Result<(), Error>)
        requires
            old(self).wf(),
            old(ledger).wf(),
            old(self).spec_state() is Some,
            old(self).spec_state() matches Some(i) ==> i.token == old(ledger).spec_token(),
        ensures
            final(self).wf(),
            final(ledger).wf(),
            final(self).spec_address() == old(self).spec_address(),
            final(ledger).spec_token() == old(ledger).spec_token(),
            r == step_result(old(self).sys(*old(ledger)), Op::ConfirmRelease, caller),
            final(self).spec_state() == step(old(self).sys(*old(ledger)), Op::ConfirmRelease, caller).inst,
            final(self).spec_events() == step(old(self).sys(*old(ledger)), Op::ConfirmRelease, caller).events,
            forall|a: Address| final(ledger).spec_balance(a)
                == step(old(self).sys(*old(ledger)), Op::ConfirmRelease, caller).bal[a],
    {
        let inst = self.state.unwrap();
        if caller != inst.patient {
            return Err(Error::Unauthorized);
        }
        if inst.status != Status::Funded {
            return Err(Error::InvalidState);
        }
        self.internal_release(ledger)
    }

    /// The arbiter forces the same settlement as `confirm_release`: custody to
    /// the specialist, instance `Released`.
    pub fn force_release(&mut self, ledger: &mut Ledger, caller: Address) -> (r: Result<(), Error>)
        requires
            old(self).wf(),
            old(ledger).wf(),
            old(self).spec_state() is Some,
            old(self).spec_state() matches Some(i) ==> i.token == old(ledger).spec_token(),
        ensures
            final(self).wf(),
            final(ledger).wf(),
            final(self).spec_address() == old(self).spec_address(),
            final(ledger).spec_token() == old(ledger).spec_token(),
            r == step_result(old(self).sys(*old(ledger)), Op::ForceRelease, caller),
            final(self).spec_state() == step(old(self).sys(*old(ledger)), Op::ForceRelease, caller).inst,
            final(self).spec_events() == step(old(self).sys(*old(ledger)), Op::ForceRelease, caller).events,
            forall|a: Address| final(ledger).spec_balance(a)
                == step(old(self).sys(*old(ledger)), Op::ForceRelease, caller).bal[a],
    {
        let inst = self.state.unwrap();
        if caller != inst.arbiter {
            return Err(Error::Unauthorized);
        }
        if inst.status != Status::Funded {
            return Err(Error::InvalidState);
        }
        self.internal_release(ledger)
    }

    /// The arbiter returns the custody amount to the patient and marks the
    /// instance `Refunded`.
    pub fn force_refund(&mut self, ledger: &mut Ledger, caller: Address) -> (r: Result<(), Error>)
        requires
            old(self).wf(),
            old(ledger).wf(),
            old(self).spec_state() is Some,
            old(self).spec_state() matches Some(i) ==> i.token == old(ledger).spec_token(),
        ensures
            final(self).wf(),
            final(ledger).wf(),
            final(self).spec_address() == old(self).spec_address(),
            final(ledger).spec_token() == old(ledger).spec_token(),
            r == step_result(old(self).sys(*old(ledger)), Op::ForceRefund, caller),
            final(self).spec_state() == step(old(self).sys(*old(ledger)), Op::ForceRefund, caller).inst,
            final(self).spec_events() == step(old(self).sys(*old(ledger)), Op::ForceRefund, caller).events,
            forall|a: Address| final(ledger).spec_balance(a)
                == step(old(self).sys(*old(ledger)), Op::ForceRefund, caller).bal[a],
    {
        let inst = self.state.unwrap();
        if caller != inst.arbiter {
            return Err(Error::Unauthorized);
        }
        if inst.status != Status::Funded {
            return Err(Error::InvalidState);
        }
        let contract_address = self.address;
        match ledger.transfer(contract_address, inst.patient, inst.amount) {
            Err(_) => Err(Error::TransferFailed),
            Ok(()) => {
                self.state = Some(EscrowInstance { status: Status::Refunded, ..inst });
                self.events.push(Event::Refund {
                    arbiter: inst.arbiter,
                    patient: inst.patient,
                    amount: inst.amount,
                });
                Ok(())
            },
        }
    }

    /// Shared settlement of both release paths: pays the specialist out of
    /// custody, marks the instance `Released` and emits the release event.
    fn internal_release(&mut self, ledger: &mut Ledger) -> (r: Result<(), Error>)
        requires
            old(self).wf(),
            old(ledger).wf(),
            old(self).spec_state() matches Some(i) && i.status == Status::Funded
                && i.token == old(ledger).spec_token(),
        ensures
            final(self).wf(),
            final(ledger).wf(),
            final(self).spec_address() == old(self).spec_address(),
            final(ledger).spec_token() == old(ledger).spec_token(),
            old(self).spec_state() matches Some(i) ==> {
                let can = can_transfer(
                    old(ledger).balances(),
                    old(self).spec_address(),
                    i.specialist,
                    i.amount as int,
                );
                &&& r == if can { Ok::<(), Error>(()) } else { Err::<(), Error>(Error::TransferFailed) }
                &&& can ==> final(self).spec_state() == Some(EscrowInstance { status: Status::Released, ..i })
                    && final(self).spec_events() == old(self).spec_events().push(
                        Event::Release { specialist: i.specialist, amount: i.amount },
                    )
                    && (forall|a: Address| final(ledger).spec_balance(a) == transfer_effect(
                        old(ledger).balances(),
                        old(self).spec_address(),
                        i.specialist,
                        i.amount as int,
                    )[a])
                &&& !can ==> final(self).spec_state() == old(self).spec_state()
                    && final(self).spec_events() == old(self).spec_events()
                    && (forall|a: Address| final(ledger).spec_balance(a) == old(ledger).spec_balance(a))
            },
    {
        let inst = self.state.unwrap();
        let contract_address = self.address;
        match ledger.transfer(contract_address, inst.specialist, inst.amount) {
            Err(_) => Err(Error::TransferFailed),
            Ok(()) => {
                self.state = Some(EscrowInstance { status: Status::Released, ..inst });
                self.events.push(Event::Release { specialist: inst.specialist, amount: inst.amount });
                Ok(())
            },
        }
    }
}

} // verus!
