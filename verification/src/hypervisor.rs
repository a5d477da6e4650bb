//! The hypervisor of the x86 VM: what the host does when a contract is
//! started, when the guest raises an interrupt, and when the VM stops.
//!
//! The virtual CPU itself stays outside. The functions here take what was
//! read from it as plain values and say what is to be done to it: the caller
//! loads the memory, copies bytes between guest memory and the host, and
//! hands the results back.
//!
//! Registers follow a cdecl-like order: `EAX`, `ECX`, `EDX`.
//!
//! | Interrupt | Meaning                                              |
//! |-----------|------------------------------------------------------|
//! | 0x10      | push_sccs (buffer, size)                             |
//! | 0x11      | pop_sccs (buffer, max_size) -> actual_size           |
//! | 0x12      | peek_sccs (buffer, max_size, index) -> actual_size   |
//! | 0x13-0x18 | reserved SCCS primitives, accepted without effect    |
//! | 0x20      | system_call (feature, function) -> error             |
//! | 0x99      | execution_type () -> u32                             |
//! | 0xFE      | revert_execution (status), does not return           |
//! | 0xFF      | exit_execution (status), does not return             |

use vstd::prelude::*;
use vstd::string::StringExecFns;

use crate::bytes::copy_bytes;
use crate::bytes::prefix;
use crate::callstack::bytes_result;
use crate::callstack::gas_times;
use crate::callstack::mul_gas;
use crate::callstack::CallStackCost;
use crate::callstack::CallStackView;
use crate::callstack::ContractCallStack;
use crate::callstack::GasSchedule;
use crate::callstack::MAX_SCCS_ITEM_LEN;
use crate::definition::decimal;
use crate::definition::decimal_text;
use crate::interface::CallSystem;
use crate::interface::ExecutionType;
use crate::interface::NeutronVMResult;
use crate::neutronerror::NeutronError;
use crate::neutronerror::RecoverableError;
use crate::neutronerror::UnrecoverableError;
use crate::testbench::LogLevel;

verus! {

/// The space byte under which the x86 VM keeps a contract's sections.
pub const X86_SPACE: u8 = 2;

/// The first byte of the key of a code section.
pub const CODE_SECTION_SPACE: u8 = 1;

/// The first byte of the key of a data section.
pub const DATA_SECTION_SPACE: u8 = 2;

/// Where the code of a contract is loaded, and where execution starts.
pub const CODE_ADDRESS: u32 = 0x10000;

/// Where the data of a contract is loaded: the primary memory.
pub const DATA_ADDRESS: u32 = 0x8002_0000;

/// The size of the memory regions but the guest stack.
pub const REGION_SIZE: u32 = 0xFFFF;

/// The size of the guest stack.
pub const GUEST_STACK_SIZE: u32 = 0x2000;

/// The interrupt by which the guest asks for a system call.
pub const SYSTEM_CALL_INTERRUPT: u8 = 0x20;

/// The interrupt by which the guest asks for its execution type.
pub const EXECUTION_TYPE_INTERRUPT: u8 = 0x99;

/// The interrupt by which the guest ends its execution and reverts it.
pub const REVERT_INTERRUPT: u8 = 0xFE;

/// The interrupt by which the guest ends its execution.
pub const EXIT_INTERRUPT: u8 = 0xFF;

/// The SCCS primitives that the guest reaches by interrupt.
#[derive(Clone, Copy, Debug, PartialEq, Eq, Structural)]
pub enum StackInterrupt {
    Push,
    Pop,
    Peek,
    Swap,
    Dup,
    ItemCount,
    StackSize,
    StackSizeRemaining,
    ItemLimitRemaining,
}

impl StackInterrupt {
    /// The number of the interrupt.
    pub open spec fn spec_number(self) -> u8 {
        match self {
            StackInterrupt::Push => 0x10,
            StackInterrupt::Pop => 0x11,
            StackInterrupt::Peek => 0x12,
            StackInterrupt::Swap => 0x13,
            StackInterrupt::Dup => 0x14,
            StackInterrupt::ItemCount => 0x15,
            StackInterrupt::StackSize => 0x16,
            StackInterrupt::StackSizeRemaining => 0x17,
            StackInterrupt::ItemLimitRemaining => 0x18,
        }
    }

    /// The number of the interrupt.
    #[verifier::when_used_as_spec(spec_number)]
    pub fn number(self) -> (n: u8)
        ensures
            n == self.spec_number(),
    {
        match self {
            StackInterrupt::Push => 0x10,
            StackInterrupt::Pop => 0x11,
            StackInterrupt::Peek => 0x12,
            StackInterrupt::Swap => 0x13,
            StackInterrupt::Dup => 0x14,
            StackInterrupt::ItemCount => 0x15,
            StackInterrupt::StackSize => 0x16,
            StackInterrupt::StackSizeRemaining => 0x17,
            StackInterrupt::ItemLimitRemaining => 0x18,
        }
    }

    /// The SCCS primitive that an interrupt number stands for, if any.
    pub open spec fn spec_from_u8(num: u8) -> Option<StackInterrupt> {
        if num == 0x10 {
            Some(StackInterrupt::Push)
        } else if num == 0x11 {
            Some(StackInterrupt::Pop)
        } else if num == 0x12 {
            Some(StackInterrupt::Peek)
        } else if num == 0x13 {
            Some(StackInterrupt::Swap)
        } else if num == 0x14 {
            Some(StackInterrupt::Dup)
        } else if num == 0x15 {
            Some(StackInterrupt::ItemCount)
        } else if num == 0x16 {
            Some(StackInterrupt::StackSize)
        } else if num == 0x17 {
            Some(StackInterrupt::StackSizeRemaining)
        } else if num == 0x18 {
            Some(StackInterrupt::ItemLimitRemaining)
        } else {
            None
        }
    }

    /// The SCCS primitive that an interrupt number stands for, if any.
    #[verifier::when_used_as_spec(spec_from_u8)]
    pub fn from_u8(num: u8) -> (which: Option<StackInterrupt>)
        ensures
            which == StackInterrupt::spec_from_u8(num),
            which matches Some(s) ==> s.spec_number() == num,
    {
        match num {
            0x10 => Some(StackInterrupt::Push),
            0x11 => Some(StackInterrupt::Pop),
            0x12 => Some(StackInterrupt::Peek),
            0x13 => Some(StackInterrupt::Swap),
            0x14 => Some(StackInterrupt::Dup),
            0x15 => Some(StackInterrupt::ItemCount),
            0x16 => Some(StackInterrupt::StackSize),
            0x17 => Some(StackInterrupt::StackSizeRemaining),
            0x18 => Some(StackInterrupt::ItemLimitRemaining),
            _ => None,
        }
    }
}

/// The registers of the guest that carry the arguments of an interrupt.
#[derive(Clone, Copy, Debug, PartialEq, Eq, Structural)]
pub struct GuestRegisters {
    /// Buffer pointer, or the feature of a system call.
    pub eax: u32,
    /// Size or maximum size, or the function of a system call.
    pub ecx: u32,
    /// Index.
    pub edx: u32,
}

/// How the VM goes on after an interrupt.
#[derive(Clone, Copy, Debug, PartialEq, Eq, Structural)]
pub enum InterruptVerdict {
    /// The guest goes on.
    Resume,
    /// The guest asked to stop; the VM stops without an error.
    Stop,
    /// The host failed beyond recovery; the VM halts with a system-call error.
    SyscallError,
    /// The gas ran out; the VM halts.
    OutOfGas,
}

/// What an interrupt leaves behind in the VM.
#[derive(Clone, Copy, Debug, PartialEq, Eq, Structural)]
pub struct InterruptOutcome {
    /// The value to put into `EAX`, if any.
    pub eax: Option<u32>,
    /// The gas that the VM has left.
    pub gas_remaining: u64,
    pub verdict: InterruptVerdict,
    /// The error with which the handler ended, if any.
    pub fault: Option<NeutronError>,
}

/// What the host asks of the VM's owner in the course of an interrupt.
#[derive(Debug)]
pub enum InterruptStep {
    /// Read `size` bytes of guest memory at `address` and hand them to
    /// `X86Interface::push_from_guest`.
    ReadGuestMemory { address: u32, size: u32 },
    /// Write `data` into guest memory at `address` and hand the success to
    /// `X86Interface::guest_write_done`, with `actual_size`.
    WriteGuestMemory { address: u32, data: Vec<u8>, actual_size: u32 },
    /// The interrupt is over.
    Done(InterruptOutcome),
}

/// An interrupt step with its bytes as plain values.
pub enum StepView {
    ReadGuestMemory { address: u32, size: u32 },
    WriteGuestMemory { address: u32, data: Seq<u8>, actual_size: u32 },
    Done(InterruptOutcome),
}

impl View for InterruptStep {
    type V = StepView;

    open spec fn view(&self) -> StepView {
        match self {
            InterruptStep::ReadGuestMemory { address, size } => StepView::ReadGuestMemory {
                address: *address,
                size: *size,
            },
            InterruptStep::WriteGuestMemory { address, data, actual_size } => {
                StepView::WriteGuestMemory {
                    address: *address,
                    data: data@,
                    actual_size: *actual_size,
                }
            },
            InterruptStep::Done(outcome) => StepView::Done(*outcome),
        }
    }
}

/// The gas that the VM has left once the pending gas is taken from it. A
/// refund raises it; it stays within the range of `u64`.
pub open spec fn settle(gas_remaining: u64, pending_gas: i64) -> u64 {
    if gas_remaining - pending_gas < 0 {
        0
    } else if gas_remaining - pending_gas > u64::MAX {
        u64::MAX
    } else {
        (gas_remaining - pending_gas) as u64
    }
}

/// The call stack with the VM's gas published on it.
pub open spec fn published(stack: CallStackView, vm_gas: u64) -> CallStackView {
    CallStackView { gas_remaining: vm_gas, ..stack }
}

/// The call stack once its gas counters are settled with the VM.
pub open spec fn settled(stack: CallStackView) -> CallStackView {
    CallStackView { pending_gas: 0, gas_remaining: 0, ..stack }
}

/// What the result of an interrupt handler becomes in the VM, which has
/// `vm_gas` left, and on the call stack. `Ok` carries the value for `EAX`.
///
/// Success and recoverable errors let the guest go on, the error's code in
/// `EAX`; both settle the gas. Out of gas halts the VM with no gas left.
/// Unrecoverable errors settle the gas and halt the VM.
pub open spec fn translated(
    stack: CallStackView,
    vm_gas: u64,
    result: Result<Option<u32>, NeutronError>,
) -> (CallStackView, InterruptOutcome) {
    match result {
        Ok(eax) => (
            settled(stack),
            InterruptOutcome {
                eax,
                gas_remaining: settle(vm_gas, stack.pending_gas),
                verdict: InterruptVerdict::Resume,
                fault: None,
            },
        ),
        Err(NeutronError::Unrecoverable(x)) => (
            settled(stack),
            InterruptOutcome {
                eax: None,
                gas_remaining: settle(vm_gas, stack.pending_gas),
                verdict: InterruptVerdict::SyscallError,
                fault: Some(NeutronError::Unrecoverable(x)),
            },
        ),
        Err(NeutronError::Recoverable(e)) => if e == RecoverableError::OutOfGas {
            (
                stack,
                InterruptOutcome {
                    eax: None,
                    gas_remaining: 0,
                    verdict: InterruptVerdict::OutOfGas,
                    fault: Some(NeutronError::Recoverable(e)),
                },
            )
        } else {
            (
                settled(stack),
                InterruptOutcome {
                    eax: Some(e.spec_code()),
                    gas_remaining: settle(vm_gas, stack.pending_gas),
                    verdict: InterruptVerdict::Resume,
                    fault: Some(NeutronError::Recoverable(e)),
                },
            )
        },
    }
}

/// The charge for copying `n` bytes out of the VM.
pub open spec fn copy_from_vm_charge(stack: CallStackView, n: nat) -> i64 {
    gas_times(stack.stack_cost(CallStackCost::CopyDataFromVM), n)
}

/// The charge for copying `n` bytes into the VM.
pub open spec fn copy_to_vm_charge(stack: CallStackView, n: nat) -> i64 {
    gas_times(stack.stack_cost(CallStackCost::CopyDataToVM), n)
}

/// The smaller of the guest's buffer size and the item's length.
pub open spec fn copied_len(max_size: u32, item_len: nat) -> nat {
    if max_size <= item_len {
        max_size as nat
    } else {
        item_len
    }
}

/// The first step of a push: the copy out of the VM is charged; then the
/// bytes are asked for, unless the gas ran out.
pub open spec fn push_begun(stack: CallStackView, registers: GuestRegisters) -> (
    CallStackView,
    StepView,
) {
    let charged = stack.charge(copy_from_vm_charge(stack, registers.ecx as nat));
    if charged.out_of_gas() {
        let (after, outcome) = translated(
            charged,
            charged.gas_remaining,
            Err(NeutronError::Recoverable(RecoverableError::OutOfGas)),
        );
        (after, StepView::Done(outcome))
    } else {
        (charged, StepView::ReadGuestMemory { address: registers.eax, size: registers.ecx })
    }
}

/// The end of a push: bytes that could not be read fail the interrupt; else
/// they are pushed, and `EAX` is 0 on success.
pub open spec fn push_finished(stack: CallStackView, memory: Option<Seq<u8>>) -> (
    CallStackView,
    InterruptOutcome,
) {
    match memory {
        None => translated(
            stack,
            stack.gas_remaining,
            Err(NeutronError::Recoverable(RecoverableError::ErrorCopyingFromVM)),
        ),
        Some(bytes) => {
            let (pushed, result) = stack.pushed(bytes);
            match result {
                Ok(_) => translated(pushed, pushed.gas_remaining, Ok(Some(0u32))),
                Err(e) => translated(pushed, pushed.gas_remaining, Err(e)),
            }
        },
    }
}

/// What follows once an item was taken for the guest, by pop or by peek: the
/// copy into the VM is charged for the bytes that fit the guest's buffer;
/// then these bytes are to be written, unless the buffer is null, in which
/// case the interrupt ends with the item's length in `EAX`.
pub open spec fn item_delivered(
    stack: CallStackView,
    registers: GuestRegisters,
    taken: Result<Seq<u8>, NeutronError>,
) -> (CallStackView, StepView) {
    match taken {
        Err(e) => {
            let (after, outcome) = translated(stack, stack.gas_remaining, Err(e));
            (after, StepView::Done(outcome))
        },
        Ok(item) => {
            let n = copied_len(registers.ecx, item.len());
            let charged = stack.charge(copy_to_vm_charge(stack, n));
            if charged.out_of_gas() {
                let (after, outcome) = translated(
                    charged,
                    charged.gas_remaining,
                    Err(NeutronError::Recoverable(RecoverableError::OutOfGas)),
                );
                (after, StepView::Done(outcome))
            } else if registers.eax != 0 && n != 0 {
                (
                    charged,
                    StepView::WriteGuestMemory {
                        address: registers.eax,
                        data: item.subrange(0, n as int),
                        actual_size: item.len() as u32,
                    },
                )
            } else {
                let (after, outcome) = translated(
                    charged,
                    charged.gas_remaining,
                    Ok(Some(item.len() as u32)),
                );
                (after, StepView::Done(outcome))
            }
        },
    }
}

/// The first step of a pop.
pub open spec fn pop_begun(stack: CallStackView, registers: GuestRegisters) -> (
    CallStackView,
    StepView,
) {
    let (after, taken) = stack.popped();
    item_delivered(after, registers, taken)
}

/// The first step of a peek; the index is in `EDX`.
pub open spec fn peek_begun(stack: CallStackView, registers: GuestRegisters) -> (
    CallStackView,
    StepView,
) {
    let (after, taken) = stack.peeked(registers.edx);
    item_delivered(after, registers, taken)
}

/// The end of a pop or a peek: a write that failed fails the interrupt;
/// else `EAX` is the item's length.
pub open spec fn write_finished(stack: CallStackView, written: bool, actual_size: u32) -> (
    CallStackView,
    InterruptOutcome,
) {
    if written {
        translated(stack, stack.gas_remaining, Ok(Some(actual_size)))
    } else {
        translated(
            stack,
            stack.gas_remaining,
            Err(NeutronError::Recoverable(RecoverableError::ErrorCopyingIntoVM)),
        )
    }
}

/// What a stack interrupt does first, once the VM's gas is published.
pub open spec fn stack_interrupt_begun(
    stack: CallStackView,
    registers: GuestRegisters,
    which: StackInterrupt,
) -> (CallStackView, StepView) {
    match which {
        StackInterrupt::Push => push_begun(stack, registers),
        StackInterrupt::Pop => pop_begun(stack, registers),
        StackInterrupt::Peek => peek_begun(stack, registers),
        _ => {
            let (after, outcome) = translated(stack, stack.gas_remaining, Ok(None));
            (after, StepView::Done(outcome))
        },
    }
}

/// What the result of a system call becomes in the VM: the value goes to
/// `EAX`, and an error is translated like that of any interrupt.
pub open spec fn system_call_finished(
    stack: CallStackView,
    vm_gas: u64,
    result: Result<u32, NeutronError>,
) -> (CallStackView, InterruptOutcome) {
    match result {
        Ok(value) => translated(stack, vm_gas, Ok(Some(value))),
        Err(e) => translated(stack, vm_gas, Err(e)),
    }
}

/// What the interrupt that asks for the execution type does.
pub open spec fn execution_type_reported(stack: CallStackView) -> (CallStackView, InterruptOutcome) {
    if stack.contexts.len() == 0 {
        translated(
            stack,
            stack.gas_remaining,
            Err(NeutronError::Unrecoverable(UnrecoverableError::ContextIndexEmpty)),
        )
    } else {
        translated(
            stack,
            stack.gas_remaining,
            Ok(Some(stack.contexts.last().execution_type.spec_code())),
        )
    }
}

/// What an interrupt other than a system call does first. The VM's gas is
/// published on the call stack; then
/// - an SCCS interrupt takes its first step;
/// - exit and revert stop the VM and leave its gas as it is;
/// - the execution type goes to `EAX`;
/// - interrupt 0 does nothing;
/// - any other number ends like a handler that failed with
///   `InvalidHypervisorInterrupt`: its code goes to `EAX`.
pub open spec fn interrupt_begun(
    stack: CallStackView,
    registers: GuestRegisters,
    vm_gas: u64,
    num: u8,
) -> (CallStackView, StepView) {
    let entered = published(stack, vm_gas);
    match StackInterrupt::spec_from_u8(num) {
        Some(which) => stack_interrupt_begun(entered, registers, which),
        None => if num == EXIT_INTERRUPT || num == REVERT_INTERRUPT {
            (
                entered,
                StepView::Done(
                    InterruptOutcome {
                        eax: None,
                        gas_remaining: vm_gas,
                        verdict: InterruptVerdict::Stop,
                        fault: None,
                    },
                ),
            )
        } else if num == EXECUTION_TYPE_INTERRUPT {
            let (after, outcome) = execution_type_reported(entered);
            (after, StepView::Done(outcome))
        } else if num == 0 {
            (
                entered,
                StepView::Done(
                    InterruptOutcome {
                        eax: None,
                        gas_remaining: vm_gas,
                        verdict: InterruptVerdict::Resume,
                        fault: None,
                    },
                ),
            )
        } else {
            let (after, outcome) = translated(
                entered,
                vm_gas,
                Err(NeutronError::Recoverable(RecoverableError::InvalidHypervisorInterrupt)),
            );
            (after, StepView::Done(outcome))
        },
    }
}

/// What the hypervisor tells the log of an error that came from `origin`:
/// a warning of an unrecoverable error, a debug message of a recoverable
/// one, and nothing where the gas ran out or there was no error.
pub open spec fn fault_note(origin: Seq<char>, fault: Option<NeutronError>) -> Option<
    (LogLevel, Seq<char>),
> {
    match fault {
        None => None,
        Some(NeutronError::Unrecoverable(x)) => Some(
            (LogLevel::Warning, "Unrecoverable "@ + origin + " error: "@ + x.spec_name()),
        ),
        Some(NeutronError::Recoverable(x)) => if x == RecoverableError::OutOfGas {
            None
        } else {
            Some((LogLevel::Debug, "Recoverable "@ + origin + " error: "@ + x.spec_name()))
        },
    }
}

/// What the hypervisor tells the log of the first step of interrupt `num`,
/// a system call apart. A step that asks for guest memory is not yet an
/// end and tells nothing. Exit and revert are told as debug messages, a
/// number that is no interrupt as a warning with the number, and any other
/// end by `fault_note`.
pub open spec fn interrupt_note(num: u8, step: StepView) -> Option<(LogLevel, Seq<char>)> {
    match step {
        StepView::Done(outcome) => if num == EXIT_INTERRUPT {
            Some((LogLevel::Debug, "Exit interrupt triggered"@))
        } else if num == REVERT_INTERRUPT {
            Some((LogLevel::Debug, "Revert interrupt triggered"@))
        } else if outcome.fault == Some(
            NeutronError::Recoverable(RecoverableError::InvalidHypervisorInterrupt),
        ) {
            Some(
                (LogLevel::Warning, "Invalid interrupt triggered: "@ + decimal_text(num as nat)),
            )
        } else {
            fault_note("hypervisor"@, outcome.fault)
        },
        _ => None,
    }
}

/// What the hypervisor tells the log of the answer to a system call.
pub open spec fn system_call_note(answer: Result<u32, NeutronError>) -> Option<
    (LogLevel, Seq<char>),
> {
    match answer {
        Ok(_) => None,
        Err(e) => if e == NeutronError::Recoverable(RecoverableError::OutOfGas) {
            Some((LogLevel::Debug, "Ran out of gas during system call execution"@))
        } else {
            fault_note("system call"@, Some(e))
        },
    }
}

/// Whether telling `note` to the log of a call system may lead from
/// `before` to `after`: without a note the call system stays as it is.
pub open spec fn noted<C: CallSystem>(
    before: &C,
    after: &C,
    note: Option<(LogLevel, Seq<char>)>,
) -> bool {
    match note {
        None => *after == *before,
        Some((level, text)) => C::records(before, after, level, text),
    }
}

/// One region of guest memory.
#[derive(Clone, Copy, Debug, PartialEq, Eq, Structural)]
pub struct MemoryRegion {
    pub address: u32,
    pub size: u32,
}

/// The memory regions of a VM: code, three regions of information about the
/// execution, the transaction and the chain, the guest stack, the primary
/// memory and the auxiliary memory.
pub open spec fn canonical_regions() -> Seq<MemoryRegion> {
    seq![
        MemoryRegion { address: 0x10000, size: 0xFFFF },
        MemoryRegion { address: 0x7000_0000, size: 0xFFFF },
        MemoryRegion { address: 0x7001_0000, size: 0xFFFF },
        MemoryRegion { address: 0x7002_0000, size: 0xFFFF },
        MemoryRegion { address: 0x8001_0000, size: 0x2000 },
        MemoryRegion { address: 0x8002_0000, size: 0xFFFF },
        MemoryRegion { address: 0x8003_0000, size: 0xFFFF },
    ]
}

/// How a VM is to be set up before it runs a contract.
#[derive(Debug)]
pub struct CpuSetup {
    /// The first instruction.
    pub eip: u32,
    /// The gas that the VM starts with.
    pub gas_remaining: u64,
    /// The memory regions to add, in this order.
    pub regions: Vec<MemoryRegion>,
    /// The bytes to copy to `CODE_ADDRESS`.
    pub code: Vec<u8>,
    /// The bytes to copy to `DATA_ADDRESS`.
    pub data: Vec<u8>,
}

/// How a VM ended its run.
#[derive(Clone, Copy, Debug, PartialEq, Eq, Structural)]
pub struct VmExit {
    /// Whether the VM stopped on an error of its own.
    pub crashed: bool,
    /// The value of `EAX` when the VM stopped.
    pub eax: u32,
    /// The gas that the VM had left.
    pub gas_remaining: u64,
}

/// The gas that an execution used of its limit.
pub open spec fn gas_used(gas_limit: u64, gas_remaining: u64) -> u64 {
    if gas_remaining >= gas_limit {
        0
    } else {
        (gas_limit - gas_remaining) as u64
    }
}

/// What the end of a VM's run means, before any state is stored: a crash is
/// an execution error; so is revert or a status other than 0, as an error
/// that the contract signaled; else the result says how much gas was used.
pub open spec fn run_verdict(exit: VmExit, reverted: bool, gas_limit: u64) -> Result<
    NeutronVMResult,
    NeutronError,
> {
    if exit.crashed {
        Err(NeutronError::Recoverable(RecoverableError::ContractExecutionError))
    } else if reverted || exit.eax != 0 {
        Err(NeutronError::Recoverable(RecoverableError::ContractSignaledError))
    } else {
        Ok(
            NeutronVMResult {
                gas_used: gas_used(gas_limit, exit.gas_remaining),
                should_revert: false,
                error_code: 0,
                error_location: 0,
                extra_data: 0,
            },
        )
    }
}

/// The smallest number of bytes in the section info of a contract image.
pub const SECTION_INFO_LEN: usize = 2;

/// What taking a contract image off the SCCS does and gives: the version
/// header, the section info, the code and the data are popped in this order.
/// A section info of less than two bytes is too small, and one that
/// announces other than one code and one data section is not implemented;
/// both end the taking after the second pop.
pub open spec fn image_taken(stack: CallStackView) -> (
    CallStackView,
    Result<(Seq<u8>, Seq<u8>), NeutronError>,
) {
    let (s1, version) = stack.popped();
    match version {
        Err(e) => (s1, Err(e)),
        Ok(_) => {
            let (s2, info) = s1.popped();
            match info {
                Err(e) => (s2, Err(e)),
                Ok(section_info) => if section_info.len() < SECTION_INFO_LEN {
                    (s2, Err(NeutronError::Recoverable(RecoverableError::StackItemTooSmall)))
                } else if section_info[0] != 1 || section_info[1] != 1 {
                    (s2, Err(NeutronError::Unrecoverable(UnrecoverableError::NotImplemented)))
                } else {
                    let (s3, code) = s2.popped();
                    match code {
                        Err(e) => (s3, Err(e)),
                        Ok(code_bytes) => {
                            let (s4, data) = s3.popped();
                            match data {
                                Err(e) => (s4, Err(e)),
                                Ok(data_bytes) => (s4, Ok((code_bytes, data_bytes))),
                            }
                        },
                    }
                },
            }
        },
    }
}

/// The key of the first code section within `X86_SPACE`.
pub open spec fn code_key() -> Seq<u8> {
    seq![CODE_SECTION_SPACE, 0u8]
}

/// The key of the first data section within `X86_SPACE`.
pub open spec fn data_key() -> Seq<u8> {
    seq![DATA_SECTION_SPACE, 0u8]
}

/// What loading a contract does. The call system reads the code under
/// `code_key()` in `X86_SPACE`; if that fails, its error is returned and the
/// hypervisor stays as it is. Else the call system reads the data under
/// `data_key()`; if that fails, its error is returned and the hypervisor
/// stays as it is. Else the hypervisor holds the two sections that were
/// read, and nothing else. The call system and the call stack are left as
/// the last read left them.
pub open spec fn sections_loaded<C: CallSystem>(
    cs: &C,
    cs_after: &C,
    stack: CallStackView,
    stack_after: CallStackView,
    hv: X86View,
    hv_after: X86View,
    r: Result<(), NeutronError>,
) -> bool {
    exists|mid: C, mid_stack: CallStackView, code: Result<Seq<u8>, NeutronError>|
        {
            &&& #[trigger] C::reads_state_key(
                cs,
                &mid,
                stack,
                mid_stack,
                X86_SPACE,
                code_key(),
                code,
            )
            &&& match code {
                Err(e) => {
                    &&& r == Err::<(), NeutronError>(e)
                    &&& *cs_after == mid
                    &&& stack_after == mid_stack
                    &&& hv_after == hv
                },
                Ok(code_bytes) => exists|data: Result<Seq<u8>, NeutronError>|
                    {
                        &&& #[trigger] C::reads_state_key(
                            &mid,
                            cs_after,
                            mid_stack,
                            stack_after,
                            X86_SPACE,
                            data_key(),
                            data,
                        )
                        &&& match data {
                            Err(e) => r == Err::<(), NeutronError>(e) && hv_after == hv,
                            Ok(data_bytes) => r is Ok && hv_after == (X86View {
                                code_sections: seq![code_bytes],
                                data_sections: seq![data_bytes],
                                reverted: false,
                            }),
                        }
                    },
            }
        }
}

/// What storing a contract does. The call system writes the first code
/// section under `code_key()` in `X86_SPACE`; if that fails, its error is
/// returned. Else the call system writes the first data section under
/// `data_key()`, and what that write returns is returned. The call system
/// and the call stack are left as the last write left them.
pub open spec fn sections_stored<C: CallSystem>(
    cs: &C,
    cs_after: &C,
    stack: CallStackView,
    stack_after: CallStackView,
    hv: X86View,
    r: Result<(), NeutronError>,
) -> bool {
    exists|mid: C, mid_stack: CallStackView, first: Result<(), NeutronError>|
        {
            &&& #[trigger] C::writes_state_key(
                cs,
                &mid,
                stack,
                mid_stack,
                X86_SPACE,
                code_key(),
                hv.code_sections[0],
                first,
            )
            &&& match first {
                Err(e) => {
                    &&& r == Err::<(), NeutronError>(e)
                    &&& *cs_after == mid
                    &&& stack_after == mid_stack
                },
                Ok(_) => C::writes_state_key(
                    &mid,
                    cs_after,
                    mid_stack,
                    stack_after,
                    X86_SPACE,
                    data_key(),
                    hv.data_sections[0],
                    r,
                ),
            }
        }
}

/// The hypervisor of x86 contracts. It keeps the sections of the contract
/// that executes.
#[derive(Debug)]
pub struct X86Interface {
    code_sections: Vec<Vec<u8>>,
    data_sections: Vec<Vec<u8>>,
    reverted: bool,
}

/// What a hypervisor holds: the code and data sections of the contract, and
/// whether the guest asked to revert.
pub struct X86View {
    pub code_sections: Seq<Seq<u8>>,
    pub data_sections: Seq<Seq<u8>>,
    pub reverted: bool,
}

impl View for X86Interface {
    type V = X86View;

    closed spec fn view(&self) -> X86View {
        X86View {
            code_sections: Seq::new(self.code_sections@.len(), |i: int| self.code_sections@[i]@),
            data_sections: Seq::new(self.data_sections@.len(), |i: int| self.data_sections@[i]@),
            reverted: self.reverted,
        }
    }
}

impl X86View {
    /// Whether the sections of a contract are loaded.
    pub open spec fn loaded(self) -> bool {
        self.code_sections.len() > 0 && self.data_sections.len() > 0
    }
}

/// Computes `settle`.
pub fn settle_gas(gas_remaining: u64, pending_gas: i64) -> (left: u64)
    ensures
        left == settle(gas_remaining, pending_gas),
{
    let difference: i128 = gas_remaining as i128 - pending_gas as i128;
    if difference < 0 {
        0
    } else if difference > u64::MAX as i128 {
        u64::MAX
    } else {
        difference as u64
    }
}

/// Settles the gas counters of the call stack with a VM that has `vm_gas`
/// left: the pending gas is taken from the VM's gas, and both counters of
/// the stack are reset.
pub fn sync_gas<S: GasSchedule>(stack: &mut ContractCallStack<S>, vm_gas: u64) -> (left: u64)
    ensures
        final(stack)@ == settled(old(stack)@),
        left == settle(vm_gas, old(stack)@.pending_gas),
{
    let left = settle_gas(vm_gas, stack.pending_gas());
    stack.set_pending_gas(0);
    stack.set_gas_remaining(0);
    left
}

/// Translates the result of an interrupt handler into what the VM is left
/// with. `Ok` carries the value for `EAX`, if the handler set one.
pub fn translate_interrupt_result<S: GasSchedule>(
    stack: &mut ContractCallStack<S>,
    vm_gas: u64,
    result: Result<Option<u32>, NeutronError>,
) -> (outcome: InterruptOutcome)
    ensures
        (final(stack)@, outcome) == translated(old(stack)@, vm_gas, result),
{
    match result {
        Ok(eax) => {
            let left = sync_gas(stack, vm_gas);
            InterruptOutcome {
                eax,
                gas_remaining: left,
                verdict: InterruptVerdict::Resume,
                fault: None,
            }
        },
        Err(NeutronError::Unrecoverable(x)) => {
            let left = sync_gas(stack, vm_gas);
            InterruptOutcome {
                eax: None,
                gas_remaining: left,
                verdict: InterruptVerdict::SyscallError,
                fault: Some(NeutronError::Unrecoverable(x)),
            }
        },
        Err(NeutronError::Recoverable(e)) => {
            if e == RecoverableError::OutOfGas {
                InterruptOutcome {
                    eax: None,
                    gas_remaining: 0,
                    verdict: InterruptVerdict::OutOfGas,
                    fault: Some(NeutronError::Recoverable(e)),
                }
            } else {
                let left = sync_gas(stack, vm_gas);
                InterruptOutcome {
                    eax: Some(e.code()),
                    gas_remaining: left,
                    verdict: InterruptVerdict::Resume,
                    fault: Some(NeutronError::Recoverable(e)),
                }
            }
        },
    }
}

/// Tells a message to the log of the call system at its level.
fn log_note<C: CallSystem>(cs: &mut C, level: LogLevel, msg: &str)
    ensures
        C::records(old(cs), final(cs), level, msg@),
{
    match level {
        LogLevel::Debug => cs.log_debug(msg),
        LogLevel::Info => cs.log_info(msg),
        LogLevel::Warning => cs.log_warning(msg),
        LogLevel::Error => cs.log_error(msg),
    }
}

/// Tells the log what `fault_note` says of an error that came from
/// `origin`.
fn note_fault<C: CallSystem>(cs: &mut C, origin: &str, fault: Option<NeutronError>)
    ensures
        noted(old(cs), final(cs), fault_note(origin@, fault)),
{
    match fault {
        None => {},
        Some(NeutronError::Unrecoverable(x)) => {
            let mut text = String::from_str("Unrecoverable ");
            text.append(origin);
            text.append(" error: ");
            text.append(x.name());
            assert(text@ =~= "Unrecoverable "@ + origin@ + " error: "@ + x.spec_name());
            log_note(cs, LogLevel::Warning, text.as_str());
        },
        Some(NeutronError::Recoverable(x)) => {
            if x != RecoverableError::OutOfGas {
                let mut text = String::from_str("Recoverable ");
                text.append(origin);
                text.append(" error: ");
                text.append(x.name());
                assert(text@ =~= "Recoverable "@ + origin@ + " error: "@ + x.spec_name());
                log_note(cs, LogLevel::Debug, text.as_str());
            }
        },
    }
}

/// Tells the log what `interrupt_note` says of a step.
fn note_step<C: CallSystem>(cs: &mut C, num: u8, step: &InterruptStep)
    ensures
        noted(old(cs), final(cs), interrupt_note(num, step@)),
{
    match step {
        InterruptStep::Done(outcome) => {
            if num == EXIT_INTERRUPT {
                log_note(cs, LogLevel::Debug, "Exit interrupt triggered");
            } else if num == REVERT_INTERRUPT {
                log_note(cs, LogLevel::Debug, "Revert interrupt triggered");
            } else {
                let invalid = match outcome.fault {
                    Some(NeutronError::Recoverable(x)) => x
                        == RecoverableError::InvalidHypervisorInterrupt,
                    _ => false,
                };
                if invalid {
                    let mut text = String::from_str("Invalid interrupt triggered: ");
                    text.append(decimal(num as usize).as_str());
                    log_note(cs, LogLevel::Warning, text.as_str());
                } else {
                    note_fault(cs, "hypervisor", outcome.fault);
                }
            }
        },
        _ => {},
    }
}

/// Tells the log what `system_call_note` says of an answer.
fn note_system_call<C: CallSystem>(cs: &mut C, answer: &Result<u32, NeutronError>)
    ensures
        noted(old(cs), final(cs), system_call_note(*answer)),
{
    match answer {
        Ok(_) => {},
        Err(e) => {
            let out_of_gas = match e {
                NeutronError::Recoverable(x) => *x == RecoverableError::OutOfGas,
                _ => false,
            };
            if out_of_gas {
                log_note(cs, LogLevel::Debug, "Ran out of gas during system call execution");
            } else {
                note_fault(cs, "system call", Some(*e));
            }
        },
    }
}

/// Ends an interrupt with `result`, for a VM whose gas is the one published
/// on the call stack.
fn finish<S: GasSchedule>(
    stack: &mut ContractCallStack<S>,
    result: Result<Option<u32>, NeutronError>,
) -> (outcome: InterruptOutcome)
    ensures
        (final(stack)@, outcome) == translated(old(stack)@, old(stack)@.gas_remaining, result),
{
    let vm_gas = stack.gas_remaining();
    translate_interrupt_result(stack, vm_gas, result)
}

/// Hands an item that was popped or peeked to the guest.
fn deliver_item<S: GasSchedule>(
    stack: &mut ContractCallStack<S>,
    registers: GuestRegisters,
    taken: Result<Vec<u8>, NeutronError>,
) -> (step: InterruptStep)
    ensures
        taken matches Ok(item) ==> (final(stack)@, step@) == item_delivered(
            old(stack)@,
            registers,
            Ok(item@),
        ),
        taken matches Err(e) ==> (final(stack)@, step@) == item_delivered(
            old(stack)@,
            registers,
            Err(e),
        ),
{
    match taken {
        Err(e) => InterruptStep::Done(finish(stack, Err(e))),
        Ok(item) => {
            let wanted = registers.ecx as usize;
            let n = if wanted <= item.len() {
                wanted
            } else {
                item.len()
            };
            let cost = mul_gas(
                stack.gas_cost(
                    crate::callstack::INTERNAL_BUILT_IN_FEATURE,
                    CallStackCost::CopyDataToVM.id(),
                ),
                n,
            );
            match stack.charge_gas(cost) {
                Err(e) => InterruptStep::Done(finish(stack, Err(e))),
                Ok(_) => {
                    let actual_size = item.len() as u32;
                    if registers.eax != 0 && n != 0 {
                        InterruptStep::WriteGuestMemory {
                            address: registers.eax,
                            data: prefix(item.as_slice(), n),
                            actual_size,
                        }
                    } else {
                        InterruptStep::Done(finish(stack, Ok(Some(actual_size))))
                    }
                },
            }
        },
    }
}

/// Takes the first step of an SCCS interrupt.
pub fn stack_interrupt<S: GasSchedule>(
    stack: &mut ContractCallStack<S>,
    registers: GuestRegisters,
    which: StackInterrupt,
) -> (step: InterruptStep)
    ensures
        (final(stack)@, step@) == stack_interrupt_begun(old(stack)@, registers, which),
{
    match which {
        StackInterrupt::Push => {
            let cost = mul_gas(
                stack.gas_cost(
                    crate::callstack::INTERNAL_BUILT_IN_FEATURE,
                    CallStackCost::CopyDataFromVM.id(),
                ),
                registers.ecx as usize,
            );
            match stack.charge_gas(cost) {
                Err(e) => InterruptStep::Done(finish(stack, Err(e))),
                Ok(_) => InterruptStep::ReadGuestMemory {
                    address: registers.eax,
                    size: registers.ecx,
                },
            }
        },
        StackInterrupt::Pop => {
            let taken = stack.pop_sccs();
            deliver_item(stack, registers, taken)
        },
        StackInterrupt::Peek => {
            let taken = stack.peek_sccs(registers.edx);
            deliver_item(stack, registers, taken)
        },
        _ => InterruptStep::Done(finish(stack, Ok(None))),
    }
}

/// Ends a push with the bytes that were read from guest memory, or with
/// `None` if they could not be read, and tells the log of an error.
pub fn push_from_guest<C: CallSystem, S: GasSchedule>(
    cs: &mut C,
    stack: &mut ContractCallStack<S>,
    memory: Option<&[u8]>,
) -> (outcome: InterruptOutcome)
    ensures
        memory matches Some(bytes) ==> (final(stack)@, outcome) == push_finished(
            old(stack)@,
            Some(bytes@),
        ),
        memory is None ==> (final(stack)@, outcome) == push_finished(old(stack)@, None),
        noted(old(cs), final(cs), fault_note("hypervisor"@, outcome.fault)),
{
    let outcome = match memory {
        None => finish(
            stack,
            Err(NeutronError::Recoverable(RecoverableError::ErrorCopyingFromVM)),
        ),
        Some(bytes) => {
            match stack.push_sccs(bytes) {
                Ok(_) => finish(stack, Ok(Some(0))),
                Err(e) => finish(stack, Err(e)),
            }
        },
    };
    note_fault(cs, "hypervisor", outcome.fault);
    outcome
}

/// Ends a pop or a peek once the bytes were written into guest memory, or
/// could not be, and tells the log of an error.
pub fn guest_write_done<C: CallSystem, S: GasSchedule>(
    cs: &mut C,
    stack: &mut ContractCallStack<S>,
    written: bool,
    actual_size: u32,
) -> (outcome: InterruptOutcome)
    ensures
        (final(stack)@, outcome) == write_finished(old(stack)@, written, actual_size),
        noted(old(cs), final(cs), fault_note("hypervisor"@, outcome.fault)),
{
    let outcome = if written {
        finish(stack, Ok(Some(actual_size)))
    } else {
        finish(stack, Err(NeutronError::Recoverable(RecoverableError::ErrorCopyingIntoVM)))
    };
    note_fault(cs, "hypervisor", outcome.fault);
    outcome
}

/// Ends a system call with what the call system returned.
pub fn finish_system_call<S: GasSchedule>(
    stack: &mut ContractCallStack<S>,
    vm_gas: u64,
    result: Result<u32, NeutronError>,
) -> (outcome: InterruptOutcome)
    ensures
        (final(stack)@, outcome) == system_call_finished(old(stack)@, vm_gas, result),
{
    match result {
        Ok(value) => translate_interrupt_result(stack, vm_gas, Ok(Some(value))),
        Err(e) => translate_interrupt_result(stack, vm_gas, Err(e)),
    }
}

/// The memory regions that a VM is given before it runs.
pub fn init_memory() -> (regions: Vec<MemoryRegion>)
    ensures
        regions@ == canonical_regions(),
{
    let mut regions: Vec<MemoryRegion> = Vec::new();
    regions.push(MemoryRegion { address: CODE_ADDRESS, size: REGION_SIZE });
    regions.push(MemoryRegion { address: 0x7000_0000, size: REGION_SIZE });
    regions.push(MemoryRegion { address: 0x7001_0000, size: REGION_SIZE });
    regions.push(MemoryRegion { address: 0x7002_0000, size: REGION_SIZE });
    regions.push(MemoryRegion { address: 0x8001_0000, size: GUEST_STACK_SIZE });
    regions.push(MemoryRegion { address: DATA_ADDRESS, size: REGION_SIZE });
    regions.push(MemoryRegion { address: 0x8003_0000, size: REGION_SIZE });
    assert(regions@ =~= canonical_regions());
    regions
}

/// Computes `run_verdict`.
pub fn judge_run(exit: VmExit, reverted: bool, gas_limit: u64) -> (r: Result<
    NeutronVMResult,
    NeutronError,
>)
    ensures
        r == run_verdict(exit, reverted, gas_limit),
{
    if exit.crashed {
        Err(NeutronError::Recoverable(RecoverableError::ContractExecutionError))
    } else if reverted || exit.eax != 0 {
        Err(NeutronError::Recoverable(RecoverableError::ContractSignaledError))
    } else {
        let used = if exit.gas_remaining >= gas_limit {
            0
        } else {
            gas_limit - exit.gas_remaining
        };
        Ok(
            NeutronVMResult {
                gas_used: used,
                should_revert: false,
                error_code: 0,
                error_location: 0,
                extra_data: 0,
            },
        )
    }
}

/// Takes a contract image off the SCCS: version header, section info, code
/// and data. Returns the code and the data.
pub fn take_image<S: GasSchedule>(stack: &mut ContractCallStack<S>) -> (r: Result<
    (Vec<u8>, Vec<u8>),
    NeutronError,
>)
    ensures
        final(stack)@ == image_taken(old(stack)@).0,
        match r {
            Ok((code, data)) => image_taken(old(stack)@).1 == Ok::<
                (Seq<u8>, Seq<u8>),
                NeutronError,
            >((code@, data@)),
            Err(e) => image_taken(old(stack)@).1 == Err::<(Seq<u8>, Seq<u8>), NeutronError>(e),
        },
        r matches Ok((code, data)) ==> code@.len() <= MAX_SCCS_ITEM_LEN && data@.len()
            <= MAX_SCCS_ITEM_LEN,
{
    let _version = stack.pop_sccs()?;
    let section_info = stack.pop_sccs()?;
    if section_info.len() < SECTION_INFO_LEN {
        return Err(NeutronError::Recoverable(RecoverableError::StackItemTooSmall));
    }
    if section_info[0] != 1 || section_info[1] != 1 {
        return Err(NeutronError::Unrecoverable(UnrecoverableError::NotImplemented));
    }
    let code = stack.pop_sccs()?;
    let data = stack.pop_sccs()?;
    Ok((code, data))
}

/// The key of the first section of a kind within `X86_SPACE`.
fn section_key(kind: u8) -> (key: Vec<u8>)
    ensures
        key@ == seq![kind, 0u8],
{
    let mut key: Vec<u8> = Vec::new();
    key.push(kind);
    key.push(0);
    assert(key@ =~= seq![kind, 0u8]);
    key
}

impl X86Interface {
    /// A hypervisor without a contract.
    pub fn new() -> (hv: X86Interface)
        ensures
            hv@.code_sections.len() == 0,
            hv@.data_sections.len() == 0,
            !hv@.reverted,
    {
        X86Interface { code_sections: Vec::new(), data_sections: Vec::new(), reverted: false }
    }

    /// Whether the sections of a contract are loaded.
    pub fn is_loaded(&self) -> (b: bool)
        ensures
            b == self@.loaded(),
    {
        self.code_sections.len() > 0 && self.data_sections.len() > 0
    }

    /// Whether the guest asked to revert its execution.
    pub fn has_reverted(&self) -> (b: bool)
        ensures
            b == self@.reverted,
    {
        self.reverted
    }

    fn set_sections(&mut self, code: Vec<u8>, data: Vec<u8>)
        ensures
            final(self)@ == (X86View {
                code_sections: seq![code@],
                data_sections: seq![data@],
                reverted: false,
            }),
    {
        self.code_sections = Vec::new();
        self.code_sections.push(code);
        self.data_sections = Vec::new();
        self.data_sections.push(data);
        self.reverted = false;
        assert(self@.code_sections =~= seq![code@]);
        assert(self@.data_sections =~= seq![data@]);
    }

    fn setup(&self, gas_limit: u64) -> (setup: CpuSetup)
        requires
            self@.loaded(),
        ensures
            setup.eip == CODE_ADDRESS,
            setup.gas_remaining == gas_limit,
            setup.regions@ == canonical_regions(),
            setup.code@ == self@.code_sections[0],
            setup.data@ == self@.data_sections[0],
    {
        CpuSetup {
            eip: CODE_ADDRESS,
            gas_remaining: gas_limit,
            regions: init_memory(),
            code: copy_bytes(self.code_sections[0].as_slice()),
            data: copy_bytes(self.data_sections[0].as_slice()),
        }
    }

    /// Creates a new contract from the image that was pushed onto the SCCS:
    /// the image is taken off, and its sections are kept.
    pub fn create_contract_from_sccs<S: GasSchedule>(
        &mut self,
        stack: &mut ContractCallStack<S>,
    ) -> (r: Result<(), NeutronError>)
        ensures
            final(stack)@ == image_taken(old(stack)@).0,
            match r {
                Ok(_) => {
                    &&& image_taken(old(stack)@).1 matches Ok((code, data))
                    &&& final(self)@ == (X86View {
                        code_sections: seq![code],
                        data_sections: seq![data],
                        reverted: false,
                    })
                },
                Err(e) => {
                    &&& image_taken(old(stack)@).1 == Err::<(Seq<u8>, Seq<u8>), NeutronError>(e)
                    &&& final(self)@ == old(self)@
                },
            },
    {
        let (code, data) = take_image(stack)?;
        self.set_sections(code, data);
        Ok(())
    }

    /// Loads the sections of the contract that executes from its state:
    /// see `sections_loaded`.
    pub fn load_contract_code<C: CallSystem, S: GasSchedule>(
        &mut self,
        cs: &mut C,
        stack: &mut ContractCallStack<S>,
    ) -> (r: Result<(), NeutronError>)
        ensures
            sections_loaded(
                old(cs),
                final(cs),
                old(stack)@,
                final(stack)@,
                old(self)@,
                final(self)@,
                r,
            ),
    {
        let code_at = section_key(CODE_SECTION_SPACE);
        let data_at = section_key(DATA_SECTION_SPACE);
        let ghost start = *cs;
        let ghost start_stack = stack@;
        let code_read = cs.read_state_key(stack, X86_SPACE, code_at.as_slice());
        let ghost mid = *cs;
        let ghost mid_stack = stack@;
        let ghost code_seen = bytes_result(code_read);
        assert(C::reads_state_key(
            &start,
            &mid,
            start_stack,
            mid_stack,
            X86_SPACE,
            code_key(),
            code_seen,
        ));
        let code = match code_read {
            Ok(code) => code,
            Err(e) => {
                return Err(e);
            },
        };
        let data_read = cs.read_state_key(stack, X86_SPACE, data_at.as_slice());
        let ghost data_seen = bytes_result(data_read);
        assert(C::reads_state_key(
            &mid,
            &*cs,
            mid_stack,
            stack@,
            X86_SPACE,
            data_key(),
            data_seen,
        ));
        let data = match data_read {
            Ok(data) => data,
            Err(e) => {
                return Err(e);
            },
        };
        self.set_sections(code, data);
        Ok(())
    }

    /// Stores the sections that are loaded in the state of the contract that
    /// executes: see `sections_stored`.
    pub fn store_contract_code<C: CallSystem, S: GasSchedule>(
        &self,
        cs: &mut C,
        stack: &mut ContractCallStack<S>,
    ) -> (r: Result<(), NeutronError>)
        requires
            self@.loaded(),
        ensures
            sections_stored(old(cs), final(cs), old(stack)@, final(stack)@, self@, r),
    {
        let code_at = section_key(CODE_SECTION_SPACE);
        let data_at = section_key(DATA_SECTION_SPACE);
        let ghost start = *cs;
        let ghost start_stack = stack@;
        assert(self.code_sections@[0]@ == self@.code_sections[0]);
        assert(self.data_sections@[0]@ == self@.data_sections[0]);
        let first = cs.write_state_key(
            stack,
            X86_SPACE,
            code_at.as_slice(),
            self.code_sections[0].as_slice(),
        );
        let ghost mid = *cs;
        let ghost mid_stack = stack@;
        assert(C::writes_state_key(
            &start,
            &mid,
            start_stack,
            mid_stack,
            X86_SPACE,
            code_key(),
            self@.code_sections[0],
            first,
        ));
        match first {
            Err(e) => {
                return Err(e);
            },
            Ok(_) => {},
        }
        let second = cs.write_state_key(
            stack,
            X86_SPACE,
            data_at.as_slice(),
            self.data_sections[0].as_slice(),
        );
        assert(C::writes_state_key(
            &mid,
            &*cs,
            mid_stack,
            stack@,
            X86_SPACE,
            data_key(),
            self@.data_sections[0],
            second,
        ));
        second
    }

    /// Prepares the execution of the top context: a deploy takes the
    /// contract image off the SCCS, a call loads the contract from its
    /// state. Returns how the VM is to be set up.
    ///
    /// Fails with `ContextIndexEmpty` without a context and with
    /// `NotImplemented` for a bare execution; neither changes anything. A
    /// call succeeds if and only if `load_contract_code` does, and fails
    /// with its error. The call system is touched by a call only.
    pub fn prepare_execution<C: CallSystem, S: GasSchedule>(
        &mut self,
        cs: &mut C,
        stack: &mut ContractCallStack<S>,
    ) -> (r: Result<CpuSetup, NeutronError>)
        ensures
            old(stack)@.contexts.len() == 0 ==> {
                &&& r matches Err(e)
                &&& e == NeutronError::Unrecoverable(UnrecoverableError::ContextIndexEmpty)
                &&& final(stack)@ == old(stack)@
                &&& final(self)@ == old(self)@
                &&& *final(cs) == *old(cs)
            },
            old(stack)@.contexts.len() > 0 && old(stack)@.contexts.last().execution_type
                == ExecutionType::BareExecution ==> {
                &&& r matches Err(e)
                &&& e == NeutronError::Unrecoverable(UnrecoverableError::NotImplemented)
                &&& final(stack)@ == old(stack)@
                &&& final(self)@ == old(self)@
                &&& *final(cs) == *old(cs)
            },
            old(stack)@.contexts.len() > 0 && old(stack)@.contexts.last().execution_type
                == ExecutionType::Call ==> exists|loaded: Result<(), NeutronError>|
                {
                    &&& #[trigger] sections_loaded(
                        old(cs),
                        final(cs),
                        old(stack)@,
                        final(stack)@,
                        old(self)@,
                        final(self)@,
                        loaded,
                    )
                    &&& loaded is Ok ==> r is Ok
                    &&& loaded matches Err(e) ==> r matches Err(x) && x == e
                },
            old(stack)@.contexts.len() > 0 && old(stack)@.contexts.last().execution_type
                == ExecutionType::Deploy ==> {
                &&& *final(cs) == *old(cs)
                &&& final(stack)@ == image_taken(old(stack)@).0
                &&& match r {
                    Ok(setup) => image_taken(old(stack)@).1 == Ok::<
                        (Seq<u8>, Seq<u8>),
                        NeutronError,
                    >((setup.code@, setup.data@)),
                    Err(e) => image_taken(old(stack)@).1 == Err::<
                        (Seq<u8>, Seq<u8>),
                        NeutronError,
                    >(e) && final(self)@ == old(self)@,
                }
            },
            r matches Ok(setup) ==> {
                &&& setup.eip == CODE_ADDRESS
                &&& setup.gas_remaining == old(stack)@.contexts.last().gas_limit
                &&& setup.regions@ == canonical_regions()
                &&& final(self)@ == (X86View {
                    code_sections: seq![setup.code@],
                    data_sections: seq![setup.data@],
                    reverted: false,
                })
            },
    {
        let (execution_type, gas_limit) = match stack.peek_context(0) {
            Ok(context) => (context.execution_type, context.gas_limit),
            Err(_) => {
                return Err(NeutronError::Unrecoverable(UnrecoverableError::ContextIndexEmpty));
            },
        };
        match execution_type {
            ExecutionType::BareExecution => {
                return Err(NeutronError::Unrecoverable(UnrecoverableError::NotImplemented));
            },
            ExecutionType::Call => {
                let loaded = self.load_contract_code(cs, stack);
                assert(sections_loaded(
                    old(cs),
                    &*cs,
                    old(stack)@,
                    stack@,
                    old(self)@,
                    self@,
                    loaded,
                ));
                match loaded {
                    Ok(_) => {},
                    Err(e) => {
                        return Err(e);
                    },
                }
            },
            ExecutionType::Deploy => {
                self.create_contract_from_sccs(stack)?;
            },
        }
        let setup = self.setup(gas_limit);
        assert(self@.code_sections =~= seq![setup.code@]);
        assert(self@.data_sections =~= seq![setup.data@]);
        Ok(setup)
    }

    /// Ends the execution of the top context once the VM has stopped. The
    /// run is judged by `run_verdict`; after a deploy that went well the
    /// sections are stored in the state of the contract.
    ///
    /// Fails with `ContextIndexEmpty` without a context. An error of the run
    /// is returned as it is and changes nothing. A call that went well
    /// returns the result of the run and changes nothing. A deploy that went
    /// well returns the result of the run if the call system stores the
    /// sections, and else the error of the call system.
    pub fn finish_execution<C: CallSystem, S: GasSchedule>(
        &self,
        cs: &mut C,
        stack: &mut ContractCallStack<S>,
        exit: VmExit,
    ) -> (r: Result<NeutronVMResult, NeutronError>)
        requires
            self@.loaded(),
        ensures
            old(stack)@.contexts.len() == 0 ==> {
                &&& r matches Err(e)
                &&& e == NeutronError::Unrecoverable(UnrecoverableError::ContextIndexEmpty)
                &&& final(stack)@ == old(stack)@
                &&& *final(cs) == *old(cs)
            },
            old(stack)@.contexts.len() > 0 ==> {
                let context = old(stack)@.contexts.last();
                let verdict = run_verdict(exit, self@.reverted, context.gas_limit);
                &&& verdict is Err ==> r == verdict && final(stack)@ == old(stack)@ && *final(cs)
                    == *old(cs)
                &&& verdict is Ok && context.execution_type != ExecutionType::Deploy ==> r
                    == verdict && final(stack)@ == old(stack)@ && *final(cs) == *old(cs)
                &&& verdict is Ok && context.execution_type == ExecutionType::Deploy
                    ==> exists|stored: Result<(), NeutronError>|
                    {
                        &&& #[trigger] sections_stored(
                            old(cs),
                            final(cs),
                            old(stack)@,
                            final(stack)@,
                            self@,
                            stored,
                        )
                        &&& r == match stored {
                            Ok(_) => verdict,
                            Err(e) => Err(e),
                        }
                    }
            },
    {
        let (execution_type, gas_limit) = match stack.peek_context(0) {
            Ok(context) => (context.execution_type, context.gas_limit),
            Err(_) => {
                return Err(NeutronError::Unrecoverable(UnrecoverableError::ContextIndexEmpty));
            },
        };
        let result = judge_run(exit, self.reverted, gas_limit)?;
        match execution_type {
            ExecutionType::Deploy => {
                let stored = self.store_contract_code(cs, stack);
                assert(sections_stored(old(cs), &*cs, old(stack)@, stack@, self@, stored));
                match stored {
                    Ok(_) => {},
                    Err(e) => {
                        return Err(e);
                    },
                }
            },
            _ => {},
        }
        Ok(result)
    }

    /// Handles an interrupt that the guest raised. `registers` and `vm_gas`
    /// are what the VM held when it raised it. The result says what is to be
    /// done next: see `InterruptStep`.
    ///
    /// Any interrupt but a system call does what `interrupt_begun` says, and
    /// the log of the call system is told what `interrupt_note` says;
    /// nothing else is done to the call system.
    ///
    /// A system call is made once on the call system, with the feature in
    /// `EAX` and the function in `ECX`, on the call stack with the VM's gas
    /// published. Its answer is translated by `finish_system_call`, so the
    /// interrupt is over in one step, and the log is told what
    /// `system_call_note` says of the answer.
    pub fn interrupt<C: CallSystem, S: GasSchedule>(
        &mut self,
        cs: &mut C,
        stack: &mut ContractCallStack<S>,
        registers: GuestRegisters,
        vm_gas: u64,
        num: u8,
    ) -> (step: InterruptStep)
        ensures
            final(self)@ == (X86View {
                reverted: old(self)@.reverted || num == REVERT_INTERRUPT,
                ..old(self)@
            }),
            num != SYSTEM_CALL_INTERRUPT ==> {
                &&& (final(stack)@, step@) == interrupt_begun(old(stack)@, registers, vm_gas, num)
                &&& noted(old(cs), final(cs), interrupt_note(num, step@))
            },
            num == SYSTEM_CALL_INTERRUPT ==> exists|
                mid_cs: C,
                mid: CallStackView,
                answer: Result<u32, NeutronError>,
            |
                {
                    &&& #[trigger] C::system_calls(
                        old(cs),
                        &mid_cs,
                        published(old(stack)@, vm_gas),
                        mid,
                        registers.eax,
                        registers.ecx,
                        answer,
                    )
                    &&& final(stack)@ == system_call_finished(mid, vm_gas, answer).0
                    &&& step@ == StepView::Done(system_call_finished(mid, vm_gas, answer).1)
                    &&& noted(&mid_cs, final(cs), system_call_note(answer))
                },
    {
        stack.set_gas_remaining(vm_gas);
        if num == SYSTEM_CALL_INTERRUPT {
            let ghost before_call = stack@;
            let answer = cs.system_call(stack, registers.eax, registers.ecx);
            let ghost mid_cs = *cs;
            let ghost mid = stack@;
            assert(C::system_calls(
                old(cs),
                &mid_cs,
                before_call,
                mid,
                registers.eax,
                registers.ecx,
                answer,
            ));
            let outcome = finish_system_call(stack, vm_gas, answer);
            note_system_call(cs, &answer);
            return InterruptStep::Done(outcome);
        }
        let step = match StackInterrupt::from_u8(num) {
            Some(which) => stack_interrupt(stack, registers, which),
            None => {
                if num == EXIT_INTERRUPT || num == REVERT_INTERRUPT {
                    if num == REVERT_INTERRUPT {
                        self.reverted = true;
                    }
                    InterruptStep::Done(
                        InterruptOutcome {
                            eax: None,
                            gas_remaining: vm_gas,
                            verdict: InterruptVerdict::Stop,
                            fault: None,
                        },
                    )
                } else if num == EXECUTION_TYPE_INTERRUPT {
                    let result = match stack.peek_context(0) {
                        Ok(context) => Ok(Some(context.execution_type.code())),
                        Err(_) => Err(
                            NeutronError::Unrecoverable(UnrecoverableError::ContextIndexEmpty),
                        ),
                    };
                    InterruptStep::Done(finish(stack, result))
                } else if num != 0 {
                    InterruptStep::Done(
                        translate_interrupt_result(
                            stack,
                            vm_gas,
                            Err(
                                NeutronError::Recoverable(
                                    RecoverableError::InvalidHypervisorInterrupt,
                                ),
                            ),
                        ),
                    )
                } else {
                    InterruptStep::Done(
                        InterruptOutcome {
                            eax: None,
                            gas_remaining: vm_gas,
                            verdict: InterruptVerdict::Resume,
                            fault: None,
                        },
                    )
                }
            },
        };
        note_step(cs, num, &step);
        step
    }
}

/// A recoverable error other than out of gas lets the guest go on with the
/// error's code in `EAX`; out of gas halts the VM with no gas left; an
/// unrecoverable error halts the VM.
pub proof fn lemma_error_translation(stack: CallStackView, vm_gas: u64, e: NeutronError)
    ensures
        match e {
            NeutronError::Recoverable(x) => if x == RecoverableError::OutOfGas {
                &&& translated(stack, vm_gas, Err(e)).1.verdict == InterruptVerdict::OutOfGas
                &&& translated(stack, vm_gas, Err(e)).1.gas_remaining == 0
            } else {
                &&& translated(stack, vm_gas, Err(e)).1.verdict == InterruptVerdict::Resume
                &&& translated(stack, vm_gas, Err(e)).1.eax == Some(x.spec_code())
            },
            NeutronError::Unrecoverable(_) => translated(stack, vm_gas, Err(e)).1.verdict
                == InterruptVerdict::SyscallError,
        },
{
}

/// After an operation that charged `cost` in all and did not run out of
/// gas, the VM has what it had before minus the cost; a negative cost is a
/// refund. The cost must leave the gas within `u64`.
pub proof fn lemma_gas_accounting(stack: CallStackView, vm_gas: u64, cost: i64)
    requires
        stack.pending_gas == 0,
        stack.gas_remaining == vm_gas,
        !stack.charge(cost).out_of_gas(),
        vm_gas - cost <= u64::MAX,
    ensures
        translated(stack.charge(cost), vm_gas, Ok(None)).1.gas_remaining == vm_gas - cost,
        translated(stack.charge(cost), vm_gas, Ok(None)).0.pending_gas == 0,
{
}

} // verus!
