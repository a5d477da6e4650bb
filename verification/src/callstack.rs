//! The contract call stack: the SCCS data stack, the stack of execution
//! contexts, and the gas that operations on them charge.

use vstd::prelude::*;

use crate::addressing::NeutronAddress;
use crate::bytes::copy_bytes;
use crate::interface::ContextView;
use crate::interface::ExecutionContext;
use crate::interface::ExecutionType;
use crate::neutronerror::NeutronError;
use crate::neutronerror::RecoverableError;
use crate::neutronerror::UnrecoverableError;

verus! {

/// The feature under which the costs of the stack and of memory copies stand.
pub const INTERNAL_BUILT_IN_FEATURE: u32 = 0;

/// The largest number of bytes in one SCCS item.
pub const MAX_SCCS_ITEM_LEN: usize = 0xFFFF;

/// The value of `x` brought into the range of `i64`.
pub open spec fn clamp_gas(x: int) -> i64 {
    if x < i64::MIN {
        i64::MIN
    } else if x > i64::MAX {
        i64::MAX
    } else {
        x as i64
    }
}

/// The cost of `n` units at `unit` each, brought into the range of `i64`.
pub open spec fn gas_times(unit: i64, n: nat) -> i64 {
    clamp_gas(unit * n)
}

/// The sum of two gas amounts, brought into the range of `i64`.
pub open spec fn gas_plus(a: i64, b: i64) -> i64 {
    clamp_gas(a + b)
}

/// The difference of two gas amounts, brought into the range of `i64`.
pub open spec fn gas_minus(a: i64, b: i64) -> i64 {
    clamp_gas(a - b)
}

/// Computes `gas_times`.
pub fn mul_gas(unit: i64, n: usize) -> (total: i64)
    ensures
        total == gas_times(unit, n as nat),
{
    let wide_unit: i128 = unit as i128;
    let wide_n: i128 = n as i128;
    assert(-0x8000_0000_0000_0000_0000_0000_0000_0000 < wide_unit * wide_n
        < 0x8000_0000_0000_0000_0000_0000_0000_0000) by (nonlinear_arith)
        requires
            -0x8000_0000_0000_0000 <= wide_unit <= 0x7fff_ffff_ffff_ffff,
            0 <= wide_n <= 0xffff_ffff_ffff_ffff,
    ;
    let product: i128 = wide_unit * wide_n;
    if product < i64::MIN as i128 {
        i64::MIN
    } else if product > i64::MAX as i128 {
        i64::MAX
    } else {
        product as i64
    }
}

/// Computes `gas_plus`.
pub fn add_gas(a: i64, b: i64) -> (total: i64)
    ensures
        total == gas_plus(a, b),
{
    let sum: i128 = a as i128 + b as i128;
    if sum < i64::MIN as i128 {
        i64::MIN
    } else if sum > i64::MAX as i128 {
        i64::MAX
    } else {
        sum as i64
    }
}

/// Computes `gas_minus`.
pub fn sub_gas(a: i64, b: i64) -> (total: i64)
    ensures
        total == gas_minus(a, b),
{
    let difference: i128 = a as i128 - b as i128;
    if difference < i64::MIN as i128 {
        i64::MIN
    } else if difference > i64::MAX as i128 {
        i64::MAX
    } else {
        difference as i64
    }
}

/// A table of costs, indexed by feature and by cost within the feature.
/// Costs are signed: a refund is a negative charge.
pub trait GasSchedule {
    /// The cost that the schedule gives to `costid` of `feature`.
    spec fn cost(&self, feature: u32, costid: u32) -> i64;

    fn gas_cost(&self, feature: u32, costid: u32) -> (c: i64)
        ensures
            c == self.cost(feature, costid),
    ;
}

/// The schedule in which everything is free.
pub struct BlankSchedule {}

impl GasSchedule for BlankSchedule {
    open spec fn cost(&self, feature: u32, costid: u32) -> i64 {
        0
    }

    fn gas_cost(&self, _feature: u32, _costid: u32) -> (c: i64) {
        0
    }
}

/// One line of a cost table.
#[derive(Clone, Copy, Debug, PartialEq, Eq, Structural)]
pub struct CostEntry {
    pub feature: u32,
    pub costid: u32,
    pub cost: i64,
}

/// The cost that a list of lines gives: that of the last line for the pair,
/// and 0 where there is none.
pub open spec fn table_cost(entries: Seq<CostEntry>, feature: u32, costid: u32) -> i64
    decreases entries.len(),
{
    if entries.len() == 0 {
        0
    } else if entries.last().feature == feature && entries.last().costid == costid {
        entries.last().cost
    } else {
        table_cost(entries.drop_last(), feature, costid)
    }
}

/// A schedule given line by line. A pair without a line costs 0.
pub struct CostTable {
    entries: Vec<CostEntry>,
}

impl View for CostTable {
    type V = Seq<CostEntry>;

    closed spec fn view(&self) -> Seq<CostEntry> {
        self.entries@
    }
}

impl CostTable {
    /// The table without lines.
    pub fn new() -> (t: CostTable)
        ensures
            t@ == Seq::<CostEntry>::empty(),
    {
        CostTable { entries: Vec::new() }
    }

    /// Sets the cost of `costid` of `feature`; the other costs stay.
    pub fn set_cost(&mut self, feature: u32, costid: u32, cost: i64)
        ensures
            final(self)@ == old(self)@.push(CostEntry { feature, costid, cost }),
            final(self).cost(feature, costid) == cost,
            forall|f: u32, c: u32|
                (f != feature || c != costid) ==> final(self).cost(f, c) == old(self).cost(f, c),
    {
        self.entries.push(CostEntry { feature, costid, cost });
        assert(self.entries@.drop_last() =~= old(self).entries@);
    }
}

impl GasSchedule for CostTable {
    open spec fn cost(&self, feature: u32, costid: u32) -> i64 {
        table_cost(self@, feature, costid)
    }

    fn gas_cost(&self, feature: u32, costid: u32) -> (c: i64) {
        let mut i: usize = self.entries.len();
        assert(self.entries@.subrange(0, i as int) =~= self.entries@);
        while i > 0
            invariant
                i <= self.entries.len(),
                table_cost(self.entries@, feature, costid) == table_cost(
                    self.entries@.subrange(0, i as int),
                    feature,
                    costid,
                ),
            decreases i,
        {
            let entry = self.entries[i - 1];
            let ghost head = self.entries@.subrange(0, i as int);
            assert(head.last() == entry);
            assert(head.drop_last() =~= self.entries@.subrange(0, i - 1));
            if entry.feature == feature && entry.costid == costid {
                return entry.cost;
            }
            i -= 1;
        }
        0
    }
}

/// The costs that the call stack and the hypervisors charge under
/// `INTERNAL_BUILT_IN_FEATURE`.
#[derive(Clone, Copy, Debug, PartialEq, Eq, Structural)]
pub enum CallStackCost {
    WriteByte,
    ReadByte,
    ClearByteRefund,
    CopyDataToVM,
    CopyDataFromVM,
}

impl CallStackCost {
    /// The identifier of the cost within its feature.
    pub open spec fn spec_id(self) -> u32 {
        match self {
            CallStackCost::WriteByte => 1,
            CallStackCost::ReadByte => 2,
            CallStackCost::ClearByteRefund => 3,
            CallStackCost::CopyDataToVM => 4,
            CallStackCost::CopyDataFromVM => 5,
        }
    }

    /// The identifier of the cost within its feature.
    #[verifier::when_used_as_spec(spec_id)]
    pub fn id(self) -> (n: u32)
        ensures
            n == self.spec_id(),
    {
        match self {
            CallStackCost::WriteByte => 1,
            CallStackCost::ReadByte => 2,
            CallStackCost::ClearByteRefund => 3,
            CallStackCost::CopyDataToVM => 4,
            CallStackCost::CopyDataFromVM => 5,
        }
    }
}

/// The costs of a schedule as a table over all pairs of feature and cost.
pub open spec fn costs_of<S: GasSchedule>(schedule: S) -> Map<(u32, u32), i64> {
    Map::total(|k: (u32, u32)| schedule.cost(k.0, k.1))
}

/// What a call stack is: the SCCS from bottom to top, the context frames
/// from bottom to top, the gas counters and the costs in force.
#[verifier::ext_equal]
pub struct CallStackView {
    pub sccs: Seq<Seq<u8>>,
    pub contexts: Seq<ContextView>,
    pub pending_gas: i64,
    pub gas_remaining: u64,
    pub schedule: Map<(u32, u32), i64>,
    pub system_charges_enabled: bool,
}

impl CallStackView {
    /// The stack that holds nothing, has no gas, and charges by `schedule`.
    pub open spec fn empty(schedule: Map<(u32, u32), i64>) -> CallStackView {
        CallStackView {
            sccs: Seq::empty(),
            contexts: Seq::empty(),
            pending_gas: 0,
            gas_remaining: 0,
            schedule,
            system_charges_enabled: true,
        }
    }

    /// The cost in force for `costid` of `feature`: that of the schedule, or
    /// 0 while system charges are disabled.
    pub open spec fn cost(self, feature: u32, costid: u32) -> i64 {
        if self.system_charges_enabled {
            self.schedule[(feature, costid)]
        } else {
            0
        }
    }

    /// The cost in force for one of the stack's own costs.
    pub open spec fn stack_cost(self, which: CallStackCost) -> i64 {
        self.cost(INTERNAL_BUILT_IN_FEATURE, which.spec_id())
    }

    /// The stack after `amount` was added to the pending gas.
    pub open spec fn charge(self, amount: i64) -> CallStackView {
        CallStackView { pending_gas: gas_plus(self.pending_gas, amount), ..self }
    }

    /// Whether more gas is pending than remains.
    pub open spec fn out_of_gas(self) -> bool {
        self.pending_gas > self.gas_remaining
    }

    /// The charge for pushing an item of `n` bytes.
    pub open spec fn push_charge(self, n: nat) -> i64 {
        gas_times(self.stack_cost(CallStackCost::WriteByte), n)
    }

    /// The charge for popping an item of `n` bytes: the bytes are read, and
    /// what they held is refunded.
    pub open spec fn pop_charge(self, n: nat) -> i64 {
        gas_minus(
            gas_times(self.stack_cost(CallStackCost::ReadByte), n),
            gas_times(self.stack_cost(CallStackCost::ClearByteRefund), n),
        )
    }

    /// The charge for dropping an item of `n` bytes: a refund.
    pub open spec fn drop_charge(self, n: nat) -> i64 {
        gas_minus(0, gas_times(self.stack_cost(CallStackCost::ClearByteRefund), n))
    }

    /// The charge for reading an item of `n` bytes that stays.
    pub open spec fn peek_charge(self, n: nat) -> i64 {
        gas_times(self.stack_cost(CallStackCost::ReadByte), n)
    }

    /// The item at `index` from the top of the SCCS (0 is the top).
    pub open spec fn item_from_top(self, index: int) -> Seq<u8> {
        self.sccs[self.sccs.len() - 1 - index]
    }

    /// The frame at `index` from the top of the context stack.
    pub open spec fn context_from_top(self, index: int) -> ContextView {
        self.contexts[self.contexts.len() - 1 - index]
    }

    /// The stack with one more item on top.
    pub open spec fn with_item(self, item: Seq<u8>) -> CallStackView {
        CallStackView { sccs: self.sccs.push(item), ..self }
    }

    /// The stack without its top item.
    pub open spec fn without_top_item(self) -> CallStackView {
        CallStackView { sccs: self.sccs.drop_last(), ..self }
    }

    /// The stack with one more frame on top.
    pub open spec fn with_context(self, context: ContextView) -> CallStackView {
        CallStackView { contexts: self.contexts.push(context), ..self }
    }

    /// The stack without its top frame.
    pub open spec fn without_top_context(self) -> CallStackView {
        CallStackView { contexts: self.contexts.drop_last(), ..self }
    }

    /// What pushing `data` does: an item over the limit is refused and
    /// nothing changes; else the bytes are charged, and the item is on top
    /// unless the gas ran out.
    pub open spec fn pushed(self, data: Seq<u8>) -> (CallStackView, Result<(), NeutronError>) {
        if data.len() > MAX_SCCS_ITEM_LEN {
            (self, Err(NeutronError::Recoverable(RecoverableError::StackItemTooLarge)))
        } else {
            let charged = self.charge(self.push_charge(data.len()));
            if charged.out_of_gas() {
                (charged, Err(NeutronError::Recoverable(RecoverableError::OutOfGas)))
            } else {
                (charged.with_item(data), Ok(()))
            }
        }
    }

    /// What popping does: on an empty SCCS nothing changes; else the top
    /// item leaves, its bytes are charged, and it is handed out unless the
    /// gas ran out.
    pub open spec fn popped(self) -> (CallStackView, Result<Seq<u8>, NeutronError>) {
        if self.sccs.len() == 0 {
            (self, Err(NeutronError::Recoverable(RecoverableError::StackIndexDoesntExist)))
        } else {
            let item = self.sccs.last();
            let after = self.without_top_item().charge(self.pop_charge(item.len()));
            if after.out_of_gas() {
                (after, Err(NeutronError::Recoverable(RecoverableError::OutOfGas)))
            } else {
                (after, Ok(item))
            }
        }
    }

    /// What dropping does: as popping, but the bytes are only refunded and
    /// nothing is handed out.
    pub open spec fn dropped(self) -> (CallStackView, Result<(), NeutronError>) {
        if self.sccs.len() == 0 {
            (self, Err(NeutronError::Recoverable(RecoverableError::StackIndexDoesntExist)))
        } else {
            let after = self.without_top_item().charge(self.drop_charge(self.sccs.last().len()));
            if after.out_of_gas() {
                (after, Err(NeutronError::Recoverable(RecoverableError::OutOfGas)))
            } else {
                (after, Ok(()))
            }
        }
    }

    /// What peeking at `index` from the top does: an index beyond the SCCS
    /// is refused and nothing changes; else the bytes are charged, and a
    /// copy of the item is handed out unless the gas ran out.
    pub open spec fn peeked(self, index: u32) -> (CallStackView, Result<Seq<u8>, NeutronError>) {
        if index >= self.sccs.len() {
            (self, Err(NeutronError::Recoverable(RecoverableError::StackIndexDoesntExist)))
        } else {
            let item = self.item_from_top(index as int);
            let after = self.charge(self.peek_charge(item.len()));
            if after.out_of_gas() {
                (after, Err(NeutronError::Recoverable(RecoverableError::OutOfGas)))
            } else {
                (after, Ok(item))
            }
        }
    }
}

/// Whether an executable result holds what a result over plain values says.
pub open spec fn bytes_result_is(
    r: Result<Vec<u8>, NeutronError>,
    expected: Result<Seq<u8>, NeutronError>,
) -> bool {
    match r {
        Ok(bytes) => expected == Ok::<Seq<u8>, NeutronError>(bytes@),
        Err(e) => expected == Err::<Seq<u8>, NeutronError>(e),
    }
}

/// An executable result with its bytes as plain values.
pub open spec fn bytes_result(r: Result<Vec<u8>, NeutronError>) -> Result<Seq<u8>, NeutronError> {
    match r {
        Ok(bytes) => Ok(bytes@),
        Err(e) => Err(e),
    }
}

/// The frame that a top-level call or deploy starts with.
pub open spec fn top_level_frame(
    address: crate::addressing::AddressView,
    sender: crate::addressing::AddressView,
    gas_limit: u64,
    value: u64,
    execution_type: ExecutionType,
) -> ContextView {
    ContextView {
        flags: 0,
        sender,
        gas_limit,
        value_sent: value,
        origin: sender,
        self_address: address,
        execution_type,
    }
}

/// The frame that a call or deploy made from within `frames` starts with:
/// its sender is the contract that executes, its origin the sender of the
/// bottom frame.
pub open spec fn nested_frame(
    frames: Seq<ContextView>,
    address: crate::addressing::AddressView,
    gas_limit: u64,
    value: u64,
    execution_type: ExecutionType,
) -> ContextView {
    ContextView {
        flags: 0,
        sender: frames.last().self_address,
        gas_limit,
        value_sent: value,
        origin: frames[0].sender,
        self_address: address,
        execution_type,
    }
}

/// Whether the frames form one chain of calls: every frame has the origin
/// of the bottom frame, which is its sender, and the sender of each inner
/// frame is the contract of the frame below it.
pub open spec fn frames_linked(frames: Seq<ContextView>) -> bool {
    &&& forall|i: int| 0 <= i < frames.len() ==> (#[trigger] frames[i]).origin == frames[0].sender
    &&& forall|i: int, j: int|
        0 <= i && j == i + 1 && j < frames.len() ==> (#[trigger] frames[j]).sender == (
        #[trigger] frames[i]).self_address
}

/// The call stack through which the system-call layer and the VMs talk to
/// each other. It holds the contexts of the contracts that execute and the
/// shared data stack (SCCS).
pub struct ContractCallStack<S: GasSchedule = BlankSchedule> {
    data_stack: Vec<Vec<u8>>,
    context_stack: Vec<ExecutionContext>,
    pending_gas: i64,
    gas_remaining: u64,
    gas_schedule: S,
    system_charges_enabled: bool,
}

impl<S: GasSchedule> View for ContractCallStack<S> {
    type V = CallStackView;

    closed spec fn view(&self) -> CallStackView {
        CallStackView {
            sccs: Seq::new(self.data_stack@.len(), |i: int| self.data_stack@[i]@),
            contexts: Seq::new(self.context_stack@.len(), |i: int| self.context_stack@[i]@),
            pending_gas: self.pending_gas,
            gas_remaining: self.gas_remaining,
            schedule: costs_of(self.gas_schedule),
            system_charges_enabled: self.system_charges_enabled,
        }
    }
}

impl Default for ContractCallStack<BlankSchedule> {
    fn default() -> (stack: ContractCallStack<BlankSchedule>)
        ensures
            stack@ == CallStackView::empty(costs_of(BlankSchedule {})),
    {
        ContractCallStack::new_with_schedule(BlankSchedule {})
    }
}

impl<S: GasSchedule> ContractCallStack<S> {
    #[verifier::type_invariant]
    spec fn items_fit(self) -> bool {
        forall|i: int|
            0 <= i < self.data_stack@.len() ==> (#[trigger] self.data_stack@[i])@.len()
                <= MAX_SCCS_ITEM_LEN
    }

    /// An empty stack that charges by `schedule`.
    pub fn new_with_schedule(schedule: S) -> (stack: ContractCallStack<S>)
        ensures
            stack@ == CallStackView::empty(costs_of(schedule)),
    {
        let stack = ContractCallStack {
            data_stack: Vec::new(),
            context_stack: Vec::new(),
            pending_gas: 0,
            gas_remaining: 0,
            gas_schedule: schedule,
            system_charges_enabled: true,
        };
        assert(stack@.sccs =~= Seq::<Seq<u8>>::empty());
        assert(stack@.contexts =~= Seq::<ContextView>::empty());
        stack
    }

    /// From now on every cost is 0, whatever the schedule says.
    pub fn disable_system_charges(&mut self)
        ensures
            final(self)@ == (CallStackView { system_charges_enabled: false, ..old(self)@ }),
    {
        proof {
            use_type_invariant(&*self);
        }
        self.system_charges_enabled = false;
    }

    /// From now on the schedule gives the costs.
    pub fn enable_system_charges(&mut self)
        ensures
            final(self)@ == (CallStackView { system_charges_enabled: true, ..old(self)@ }),
    {
        proof {
            use_type_invariant(&*self);
        }
        self.system_charges_enabled = true;
    }

    /// The schedule by which the stack charges.
    pub fn gas_schedule(&self) -> (schedule: &S)
        ensures
            costs_of(*schedule) == self@.schedule,
    {
        &self.gas_schedule
    }

    /// The cost in force for `costid` of `feature`.
    pub fn gas_cost(&self, feature: u32, costid: u32) -> (c: i64)
        ensures
            c == self@.cost(feature, costid),
    {
        if self.system_charges_enabled {
            self.gas_schedule.gas_cost(feature, costid)
        } else {
            0
        }
    }

    /// The gas charged since the counters were last settled.
    pub fn pending_gas(&self) -> (g: i64)
        ensures
            g == self@.pending_gas,
    {
        self.pending_gas
    }

    /// The gas that the VM had left when it last entered the host.
    pub fn gas_remaining(&self) -> (g: u64)
        ensures
            g == self@.gas_remaining,
    {
        self.gas_remaining
    }

    /// Publishes the gas that the VM has left.
    pub fn set_gas_remaining(&mut self, gas: u64)
        ensures
            final(self)@ == (CallStackView { gas_remaining: gas, ..old(self)@ }),
    {
        proof {
            use_type_invariant(&*self);
        }
        self.gas_remaining = gas;
    }

    /// Sets the pending gas.
    pub fn set_pending_gas(&mut self, gas: i64)
        ensures
            final(self)@ == (CallStackView { pending_gas: gas, ..old(self)@ }),
    {
        proof {
            use_type_invariant(&*self);
        }
        self.pending_gas = gas;
    }

    /// Adds `amount` to the pending gas, and fails with `OutOfGas` if more
    /// is then pending than remains.
    pub fn charge_gas(&mut self, amount: i64) -> (r: Result<(), NeutronError>)
        ensures
            final(self)@ == old(self)@.charge(amount),
            r is Err <==> final(self)@.out_of_gas(),
            r is Err ==> r == Err::<(), NeutronError>(
                NeutronError::Recoverable(RecoverableError::OutOfGas),
            ),
    {
        proof {
            use_type_invariant(&*self);
        }
        self.pending_gas = add_gas(self.pending_gas, amount);
        if self.pending_gas > 0 && self.pending_gas as u64 > self.gas_remaining {
            return Err(NeutronError::Recoverable(RecoverableError::OutOfGas));
        }
        Ok(())
    }

    /// The cost in force for one of the stack's own costs.
    fn stack_cost(&self, which: CallStackCost) -> (c: i64)
        ensures
            c == self@.stack_cost(which),
    {
        self.gas_cost(INTERNAL_BUILT_IN_FEATURE, which.id())
    }

    /// Pushes an item to the Smart Contract Communication Stack.
    pub fn push_sccs(&mut self, data: &[u8]) -> (r: Result<(), NeutronError>)
        ensures
            final(self)@ == old(self)@.pushed(data@).0,
            r == old(self)@.pushed(data@).1,
    {
        proof {
            use_type_invariant(&*self);
        }
        if data.len() > MAX_SCCS_ITEM_LEN {
            return Err(NeutronError::Recoverable(RecoverableError::StackItemTooLarge));
        }
        let cost = mul_gas(self.stack_cost(CallStackCost::WriteByte), data.len());
        self.charge_gas(cost)?;
        let ghost before = self@;
        proof {
            use_type_invariant(&*self);
        }
        let mut items: Vec<Vec<u8>> = Vec::new();
        core::mem::swap(&mut self.data_stack, &mut items);
        items.push(copy_bytes(data));
        core::mem::swap(&mut self.data_stack, &mut items);
        assert(self@.sccs =~= before.sccs.push(data@));
        assert(self@.contexts =~= before.contexts);
        Ok(())
    }

    /// Pops an item off the Smart Contract Communication Stack.
    pub fn pop_sccs(&mut self) -> (r: Result<Vec<u8>, NeutronError>)
        ensures
            final(self)@ == old(self)@.popped().0,
            bytes_result_is(r, old(self)@.popped().1),
            r matches Ok(item) ==> item@.len() <= MAX_SCCS_ITEM_LEN,
    {
        proof {
            use_type_invariant(&*self);
        }
        let ghost before = self@;
        let mut items: Vec<Vec<u8>> = Vec::new();
        core::mem::swap(&mut self.data_stack, &mut items);
        let top = items.pop();
        core::mem::swap(&mut self.data_stack, &mut items);
        match top {
            None => Err(NeutronError::Recoverable(RecoverableError::StackIndexDoesntExist)),
            Some(item) => {
                assert(self@.sccs =~= before.sccs.drop_last());
                assert(self@.contexts =~= before.contexts);
                assert(item@ == before.sccs.last());
                let cost = sub_gas(
                    mul_gas(self.stack_cost(CallStackCost::ReadByte), item.len()),
                    mul_gas(self.stack_cost(CallStackCost::ClearByteRefund), item.len()),
                );
                self.charge_gas(cost)?;
                Ok(item)
            },
        }
    }

    /// Removes the top item of the Smart Contract Communication Stack.
    pub fn drop_sccs(&mut self) -> (r: Result<(), NeutronError>)
        ensures
            final(self)@ == old(self)@.dropped().0,
            r == old(self)@.dropped().1,
    {
        proof {
            use_type_invariant(&*self);
        }
        let ghost before = self@;
        let mut items: Vec<Vec<u8>> = Vec::new();
        core::mem::swap(&mut self.data_stack, &mut items);
        let top = items.pop();
        core::mem::swap(&mut self.data_stack, &mut items);
        match top {
            None => Err(NeutronError::Recoverable(RecoverableError::StackIndexDoesntExist)),
            Some(item) => {
                assert(self@.sccs =~= before.sccs.drop_last());
                assert(self@.contexts =~= before.contexts);
                assert(item@ == before.sccs.last());
                let cost = sub_gas(
                    0,
                    mul_gas(self.stack_cost(CallStackCost::ClearByteRefund), item.len()),
                );
                self.charge_gas(cost)?;
                Ok(())
            },
        }
    }

    /// Hands out a copy of the item at `index` from the top of the Smart
    /// Contract Communication Stack (0 is the top); the item stays.
    pub fn peek_sccs(&mut self, index: u32) -> (r: Result<Vec<u8>, NeutronError>)
        ensures
            final(self)@ == old(self)@.peeked(index).0,
            bytes_result_is(r, old(self)@.peeked(index).1),
            r matches Ok(item) ==> item@.len() <= MAX_SCCS_ITEM_LEN,
    {
        proof {
            use_type_invariant(&*self);
        }
        let len = self.data_stack.len();
        if index as usize >= len {
            return Err(NeutronError::Recoverable(RecoverableError::StackIndexDoesntExist));
        }
        let data = copy_bytes(self.data_stack[len - 1 - index as usize].as_slice());
        let cost = mul_gas(self.stack_cost(CallStackCost::ReadByte), data.len());
        self.charge_gas(cost)?;
        Ok(data)
    }

    /// The number of items in the SCCS.
    pub fn sccs_item_count(&self) -> (r: Result<u32, NeutronError>)
        ensures
            r == Ok::<u32, NeutronError>(self@.sccs.len() as u32),
    {
        Ok(self.data_stack.len() as u32)
    }

    /// Pushes a new execution context onto the stack.
    pub fn push_context(&mut self, context: ExecutionContext) -> (r: Result<(), NeutronError>)
        ensures
            r is Ok,
            final(self)@ == old(self)@.with_context(context@),
    {
        proof {
            use_type_invariant(&*self);
        }
        let ghost before = self@;
        let mut frames: Vec<ExecutionContext> = Vec::new();
        core::mem::swap(&mut self.context_stack, &mut frames);
        frames.push(context);
        core::mem::swap(&mut self.context_stack, &mut frames);
        assert(self@.contexts =~= before.contexts.push(context@));
        assert(self@.sccs =~= before.sccs);
        Ok(())
    }

    /// Removes the top execution context from the stack.
    pub fn pop_context(&mut self) -> (r: Result<ExecutionContext, NeutronError>)
        ensures
            match r {
                Ok(context) => {
                    &&& old(self)@.contexts.len() > 0
                    &&& context@ == old(self)@.contexts.last()
                    &&& final(self)@ == old(self)@.without_top_context()
                },
                Err(e) => {
                    &&& old(self)@.contexts.len() == 0
                    &&& e == NeutronError::Unrecoverable(UnrecoverableError::ContextIndexEmpty)
                    &&& final(self)@ == old(self)@
                },
            },
    {
        proof {
            use_type_invariant(&*self);
        }
        let ghost before = self@;
        let mut frames: Vec<ExecutionContext> = Vec::new();
        core::mem::swap(&mut self.context_stack, &mut frames);
        let top = frames.pop();
        core::mem::swap(&mut self.context_stack, &mut frames);
        match top {
            None => Err(NeutronError::Unrecoverable(UnrecoverableError::ContextIndexEmpty)),
            Some(context) => {
                assert(self@.contexts =~= before.contexts.drop_last());
                assert(self@.sccs =~= before.sccs);
                Ok(context)
            },
        }
    }

    /// The context at `index` from the top of the context stack.
    pub fn peek_context(&self, index: usize) -> (r: Result<&ExecutionContext, NeutronError>)
        ensures
            match r {
                Ok(context) => {
                    &&& index < self@.contexts.len()
                    &&& context@ == self@.context_from_top(index as int)
                },
                Err(e) => {
                    &&& index >= self@.contexts.len()
                    &&& e == NeutronError::Recoverable(RecoverableError::StackIndexDoesntExist)
                },
            },
    {
        let len = self.context_stack.len();
        if index >= len {
            return Err(NeutronError::Recoverable(RecoverableError::StackIndexDoesntExist));
        }
        Ok(&self.context_stack[len - 1 - index])
    }

    /// The number of contexts that take part in the execution.
    pub fn context_count(&self) -> (r: Result<usize, NeutronError>)
        ensures
            r == Ok::<usize, NeutronError>(self@.contexts.len() as usize),
    {
        Ok(self.context_stack.len())
    }

    /// The context of the contract that executes.
    pub fn current_context(&self) -> (context: &ExecutionContext)
        requires
            self@.contexts.len() > 0,
        ensures
            context@ == self@.contexts.last(),
    {
        &self.context_stack[self.context_stack.len() - 1]
    }

    /// Creates the top-level context for calling an existing contract.
    /// The context stack must be empty.
    pub fn create_top_level_call(
        &mut self,
        address: NeutronAddress,
        sender: NeutronAddress,
        gas_limit: u64,
        value: u64,
    )
        requires
            old(self)@.contexts.len() == 0,
        ensures
            final(self)@ == old(self)@.with_context(
                top_level_frame(address@, sender@, gas_limit, value, ExecutionType::Call),
            ),
    {
        self.push_top_level(address, sender, gas_limit, value, ExecutionType::Call);
    }

    /// Creates the top-level context for deploying a new contract.
    /// The context stack must be empty.
    pub fn create_top_level_deploy(
        &mut self,
        address: NeutronAddress,
        sender: NeutronAddress,
        gas_limit: u64,
        value: u64,
    )
        requires
            old(self)@.contexts.len() == 0,
        ensures
            final(self)@ == old(self)@.with_context(
                top_level_frame(address@, sender@, gas_limit, value, ExecutionType::Deploy),
            ),
    {
        self.push_top_level(address, sender, gas_limit, value, ExecutionType::Deploy);
    }

    /// Creates a nested context for calling an existing contract.
    /// The context stack must not be empty.
    pub fn create_call(&mut self, address: NeutronAddress, gas_limit: u64, value: u64)
        requires
            old(self)@.contexts.len() > 0,
        ensures
            final(self)@ == old(self)@.with_context(
                nested_frame(old(self)@.contexts, address@, gas_limit, value, ExecutionType::Call),
            ),
    {
        self.push_nested(address, gas_limit, value, ExecutionType::Call);
    }

    /// Creates a nested context for deploying a contract.
    /// The context stack must not be empty.
    pub fn create_deploy(&mut self, address: NeutronAddress, gas_limit: u64, value: u64)
        requires
            old(self)@.contexts.len() > 0,
        ensures
            final(self)@ == old(self)@.with_context(
                nested_frame(old(self)@.contexts, address@, gas_limit, value, ExecutionType::Deploy),
            ),
    {
        self.push_nested(address, gas_limit, value, ExecutionType::Deploy);
    }

    fn push_top_level(
        &mut self,
        address: NeutronAddress,
        sender: NeutronAddress,
        gas_limit: u64,
        value: u64,
        execution_type: ExecutionType,
    )
        ensures
            final(self)@ == old(self)@.with_context(
                top_level_frame(address@, sender@, gas_limit, value, execution_type),
            ),
    {
        let origin = sender.clone();
        let context = ExecutionContext {
            flags: 0,
            sender,
            gas_limit,
            value_sent: value,
            origin,
            self_address: address,
            execution_type,
        };
        let _ = self.push_context(context);
    }

    fn push_nested(
        &mut self,
        address: NeutronAddress,
        gas_limit: u64,
        value: u64,
        execution_type: ExecutionType,
    )
        requires
            old(self)@.contexts.len() > 0,
        ensures
            final(self)@ == old(self)@.with_context(
                nested_frame(old(self)@.contexts, address@, gas_limit, value, execution_type),
            ),
    {
        let sender = self.current_context().self_address.clone();
        let origin = self.context_stack[0].sender.clone();
        let context = ExecutionContext {
            flags: 0,
            sender,
            gas_limit,
            value_sent: value,
            origin,
            self_address: address,
            execution_type,
        };
        let _ = self.push_context(context);
    }
}

impl CallStackView {
    /// The stack after `n` drops, whatever they returned.
    pub open spec fn after_drops(self, n: nat) -> CallStackView
        decreases n,
    {
        if n == 0 {
            self
        } else {
            self.after_drops((n - 1) as nat).dropped().0
        }
    }
}

/// A product that fits `i64` is charged as it is, and so is a sum or a
/// difference.
pub proof fn lemma_gas_in_range(unit: i64, n: nat, a: i64, b: i64)
    ensures
        i64::MIN <= unit * n <= i64::MAX ==> gas_times(unit, n) == unit * n,
        i64::MIN <= a + b <= i64::MAX ==> gas_plus(a, b) == a + b,
        i64::MIN <= a - b <= i64::MAX ==> gas_minus(a, b) == a - b,
{
}

/// A charge fails if and only if more gas is then pending than remains,
/// and where the pending gas stays within `i64` it grows by exactly the
/// amount.
pub proof fn lemma_charge(stack: CallStackView, amount: i64)
    ensures
        stack.charge(amount).out_of_gas() <==> stack.charge(amount).pending_gas
            > stack.gas_remaining,
        i64::MIN <= stack.pending_gas + amount <= i64::MAX ==> stack.charge(amount).pending_gas
            == stack.pending_gas + amount,
        stack.charge(amount).sccs == stack.sccs,
        stack.charge(amount).contexts == stack.contexts,
        stack.charge(amount).gas_remaining == stack.gas_remaining,
{
}

/// An item of at most 65 535 bytes is pushed if the gas suffices, and a
/// larger one is refused; a pop or a drop on the empty SCCS and a peek at
/// an index from the size on are refused. What is refused changes nothing.
pub proof fn lemma_sccs_bounds(stack: CallStackView, data: Seq<u8>, index: u32)
    ensures
        data.len() <= MAX_SCCS_ITEM_LEN && !stack.charge(
            stack.push_charge(data.len()),
        ).out_of_gas() ==> stack.pushed(data).1 is Ok && stack.pushed(data).0.sccs
            == stack.sccs.push(data),
        data.len() > MAX_SCCS_ITEM_LEN ==> stack.pushed(data) == (
            stack,
            Err::<(), NeutronError>(NeutronError::Recoverable(RecoverableError::StackItemTooLarge)),
        ),
        stack.sccs.len() == 0 ==> stack.popped() == (
            stack,
            Err::<Seq<u8>, NeutronError>(
                NeutronError::Recoverable(RecoverableError::StackIndexDoesntExist),
            ),
        ),
        stack.sccs.len() == 0 ==> stack.dropped() == (
            stack,
            Err::<(), NeutronError>(
                NeutronError::Recoverable(RecoverableError::StackIndexDoesntExist),
            ),
        ),
        index >= stack.sccs.len() ==> stack.peeked(index) == (
            stack,
            Err::<Seq<u8>, NeutronError>(
                NeutronError::Recoverable(RecoverableError::StackIndexDoesntExist),
            ),
        ),
{
}

/// After a push that succeeded, a pop leaves the SCCS as it was before the
/// push, and what it hands out is the item that was pushed.
pub proof fn lemma_pop_after_push(stack: CallStackView, x: Seq<u8>)
    requires
        stack.pushed(x).1 is Ok,
    ensures
        stack.pushed(x).0.popped().0.sccs == stack.sccs,
        stack.pushed(x).0.popped().1 matches Ok(item) ==> item == x,
        stack.pushed(x).0.popped().1 matches Err(e) ==> e == NeutronError::Recoverable(
            RecoverableError::OutOfGas,
        ),
{
    let pushed = stack.pushed(x).0;
    assert(pushed.sccs.drop_last() =~= stack.sccs);
}

/// After two pushes that succeeded, a pop leaves the first item on top.
pub proof fn lemma_pop_after_two_pushes(stack: CallStackView, a: Seq<u8>, b: Seq<u8>)
    requires
        stack.pushed(a).1 is Ok,
        stack.pushed(a).0.pushed(b).1 is Ok,
    ensures
        stack.pushed(a).0.pushed(b).0.popped().0.sccs == stack.sccs.push(a),
        stack.pushed(a).0.pushed(b).0.popped().0.sccs.last() == a,
        stack.pushed(a).0.pushed(b).0.popped().1 matches Ok(item) ==> item == b,
{
    let first = stack.pushed(a).0;
    let second = first.pushed(b).0;
    assert(second.sccs.drop_last() =~= first.sccs);
}

/// Drops take items off the top one by one and touch nothing below.
pub proof fn lemma_after_drops(stack: CallStackView, n: nat)
    requires
        n <= stack.sccs.len(),
    ensures
        stack.after_drops(n).sccs == stack.sccs.subrange(0, stack.sccs.len() - n),
        stack.after_drops(n).contexts == stack.contexts,
    decreases n,
{
    if n == 0 {
        assert(stack.sccs.subrange(0, stack.sccs.len() as int) =~= stack.sccs);
    } else {
        lemma_after_drops(stack, (n - 1) as nat);
        let before = stack.after_drops((n - 1) as nat);
        assert(before.sccs.drop_last() =~= stack.sccs.subrange(0, stack.sccs.len() - n));
    }
}

/// A peek at `index` sees the item that a pop would hand out after `index`
/// drops.
pub proof fn lemma_peek_is_pop_after_drops(stack: CallStackView, index: u32)
    requires
        index < stack.sccs.len(),
    ensures
        stack.after_drops(index as nat).sccs.len() > 0,
        stack.item_from_top(index as int) == stack.after_drops(index as nat).sccs.last(),
        stack.peeked(index).1 matches Ok(seen) ==> (stack.after_drops(index as nat).popped().1
            matches Ok(item) ==> seen == item),
        stack.peeked(index).0.sccs == stack.sccs,
{
    lemma_after_drops(stack, index as nat);
}

/// Frames that form one chain still do so with a nested frame on top, and
/// a single top-level frame forms a chain.
pub proof fn lemma_frames_stay_linked(
    frames: Seq<ContextView>,
    address: crate::addressing::AddressView,
    sender: crate::addressing::AddressView,
    gas_limit: u64,
    value: u64,
    execution_type: ExecutionType,
)
    ensures
        frames_linked(seq![top_level_frame(address, sender, gas_limit, value, execution_type)]),
        frames.len() > 0 && frames_linked(frames) ==> frames_linked(
            frames.push(nested_frame(frames, address, gas_limit, value, execution_type)),
        ),
{
    if frames.len() > 0 && frames_linked(frames) {
        let after = frames.push(nested_frame(frames, address, gas_limit, value, execution_type));
        assert forall|i: int| 0 <= i < after.len() implies (#[trigger] after[i]).origin
            == after[0].sender by {
            if i < frames.len() {
                assert(after[i] == frames[i]);
            }
        }
        assert forall|i: int, j: int| 0 <= i && j == i + 1 && j < after.len() implies (
        #[trigger] after[j]).sender == (#[trigger] after[i]).self_address by {
            assert(after[i] == frames[i]);
            if j < frames.len() {
                assert(after[j] == frames[j]);
            }
        }
    }
}

} // verus!
