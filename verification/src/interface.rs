//! The values that cross the boundary between the host, the hypervisor and
//! a contract: execution contexts, results, and the system-call surface.

use vstd::prelude::*;

use crate::addressing::AddressView;
use crate::addressing::NeutronAddress;
use crate::callstack::bytes_result;
use crate::callstack::CallStackView;
use crate::callstack::ContractCallStack;
use crate::callstack::GasSchedule;
use crate::neutronerror::NeutronError;
use crate::testbench::LogLevel;

verus! {

/// The result of a smart contract execution.
#[derive(Clone, Copy, Debug, PartialEq, Eq, Structural, Default)]
pub struct NeutronVMResult {
    /// The total amount of gas used by the execution.
    pub gas_used: u64,
    /// If set, no state effect of the execution may stay.
    pub should_revert: bool,
    /// The code with which the contract ended.
    pub error_code: u32,
    /// Where the contract failed (for x86 the `EIP` register).
    pub error_location: u64,
    /// Free for the VM; contracts never see it.
    pub extra_data: u64,
}

/// What a context frame is executed for.
#[derive(Clone, Copy, Debug, PartialEq, Eq, Structural)]
pub enum ExecutionType {
    Call,
    Deploy,
    BareExecution,
}

impl ExecutionType {
    /// The number under which the guest sees the execution type.
    pub open spec fn spec_code(self) -> u32 {
        match self {
            ExecutionType::Call => 0,
            ExecutionType::Deploy => 1,
            ExecutionType::BareExecution => 2,
        }
    }

    /// The number under which the guest sees the execution type.
    #[verifier::when_used_as_spec(spec_code)]
    pub fn code(self) -> (c: u32)
        ensures
            c == self.spec_code(),
    {
        match self {
            ExecutionType::Call => 0,
            ExecutionType::Deploy => 1,
            ExecutionType::BareExecution => 2,
        }
    }
}

impl Default for ExecutionType {
    fn default() -> (t: ExecutionType)
        ensures
            t == ExecutionType::Call,
    {
        ExecutionType::Call
    }
}

/// What a context frame holds, with addresses as plain values.
pub struct ContextView {
    pub flags: u64,
    pub sender: AddressView,
    pub gas_limit: u64,
    pub value_sent: u64,
    pub origin: AddressView,
    pub self_address: AddressView,
    pub execution_type: ExecutionType,
}

/// One frame of nested execution. A new one is made for each call or deploy.
#[derive(Debug, PartialEq, Eq)]
pub struct ExecutionContext {
    /// Reserved.
    pub flags: u64,
    /// The address that caused this execution: the sender of the
    /// transaction, or the contract that made the call.
    pub sender: NeutronAddress,
    /// The total amount of gas that this execution may consume.
    pub gas_limit: u64,
    /// The number of coins sent with this execution.
    pub value_sent: u64,
    /// The sender of the transaction that started the chain of executions.
    pub origin: NeutronAddress,
    /// The address of the contract that executes.
    pub self_address: NeutronAddress,
    pub execution_type: ExecutionType,
}

impl View for ExecutionContext {
    type V = ContextView;

    open spec fn view(&self) -> ContextView {
        ContextView {
            flags: self.flags,
            sender: self.sender@,
            gas_limit: self.gas_limit,
            value_sent: self.value_sent,
            origin: self.origin@,
            self_address: self.self_address@,
            execution_type: self.execution_type,
        }
    }
}

impl Clone for ExecutionContext {
    fn clone(&self) -> (copy: ExecutionContext)
        ensures
            copy@ == self@,
    {
        ExecutionContext {
            flags: self.flags,
            sender: self.sender.clone(),
            gas_limit: self.gas_limit,
            value_sent: self.value_sent,
            origin: self.origin.clone(),
            self_address: self.self_address.clone(),
            execution_type: self.execution_type,
        }
    }
}

impl Default for ExecutionContext {
    fn default() -> (c: ExecutionContext)
        ensures
            c.flags == 0,
            c.gas_limit == 0,
            c.value_sent == 0,
            c.execution_type == ExecutionType::Call,
            c.sender@ == (AddressView { version: 0, data: Seq::empty() }),
            c.origin@ == c.sender@,
            c.self_address@ == c.sender@,
    {
        ExecutionContext {
            flags: 0,
            sender: NeutronAddress { version: 0, data: Vec::new() },
            gas_limit: 0,
            value_sent: 0,
            origin: NeutronAddress { version: 0, data: Vec::new() },
            self_address: NeutronAddress { version: 0, data: Vec::new() },
            execution_type: ExecutionType::Call,
        }
    }
}

/// The transaction in which the current execution is located.
#[derive(Clone, Debug, PartialEq, Eq, Default)]
pub struct TransactionContext {
    /// The spent outputs that make up the transaction.
    pub inputs: Vec<TxItem>,
    /// The outputs that the transaction creates.
    pub outputs: Vec<TxItem>,
    /// The coins spent on gas, counted by gas limit.
    pub total_gas_fees: u64,
    /// All fees sent with the transaction, gas fees included.
    pub total_fees: u64,
}

/// One input or output of a transaction.
#[derive(Clone, Debug, PartialEq, Eq, Default)]
pub struct TxItem {
    /// The owner of the output.
    pub sender: NeutronAddress,
    /// The value sent with it or spent by it.
    pub value: u64,
    /// The state sent with it.
    pub state: Vec<u8>,
}

/// The block in which the current execution is located.
#[derive(Clone, Debug, PartialEq, Eq, Default)]
pub struct BlockContext {
    /// The creator of the block.
    pub creator: NeutronAddress,
    /// The gas limit of the whole block.
    pub gas_limit: u64,
    /// The difficulty of the block.
    pub difficulty: u64,
    /// The height of the block.
    pub height: u32,
    /// The time recorded in the block before this one.
    pub previous_time: u64,
    /// The hashes of the blocks before this one, nearest first.
    pub previous_hashes: Vec<[u8; 32]>,
}

/// The version record of a contract.
#[derive(Clone, Copy, Debug, PartialEq, Eq, Structural, Default)]
pub struct NeutronVersion {
    pub format: u8,
    pub root_vm: u8,
    pub vm_version: u8,
    pub flags: u16,
    pub platform_version: u32,
}

fn u16_from_le(b0: u8, b1: u8) -> (v: u16)
    ensures
        v % 256 == b0,
        v / 256 == b1,
{
    b0 as u16 + b1 as u16 * 256
}

fn u32_from_le(b0: u8, b1: u8, b2: u8, b3: u8) -> (v: u32)
    ensures
        v % 256 == b0,
        v / 256 % 256 == b1,
        v / 65536 % 256 == b2,
        v / 16777216 == b3,
{
    let low: u32 = b0 as u32 + b1 as u32 * 256;
    let high: u32 = b2 as u32 + b3 as u32 * 256;
    assert(low % 256 == b0 && low / 256 == b1);
    assert(high % 256 == b2 && high / 256 == b3);
    let v: u32 = low + high * 65536;
    assert(v % 65536 == low && v / 65536 == high);
    assert(v % 256 == low % 256);
    assert(v / 256 % 256 == low / 256);
    assert(v / 16777216 == high / 256);
    v
}

/// The number of bytes in a serialized version record.
pub const VERSION_RECORD_LEN: usize = 9;

impl NeutronVersion {
    /// The serialized record: the fields in order, each little-endian.
    pub open spec fn spec_bytes(self) -> Seq<u8> {
        seq![
            self.format,
            self.root_vm,
            self.vm_version,
            (self.flags % 256) as u8,
            (self.flags / 256) as u8,
            (self.platform_version % 256) as u8,
            (self.platform_version / 256 % 256) as u8,
            (self.platform_version / 65536 % 256) as u8,
            (self.platform_version / 16777216) as u8,
        ]
    }

    /// Serializes the record.
    pub fn to_bytes(&self) -> (bytes: Vec<u8>)
        ensures
            bytes@ == self.spec_bytes(),
    {
        let mut bytes: Vec<u8> = Vec::new();
        bytes.push(self.format);
        bytes.push(self.root_vm);
        bytes.push(self.vm_version);
        bytes.push((self.flags % 256) as u8);
        bytes.push((self.flags / 256) as u8);
        bytes.push((self.platform_version % 256) as u8);
        bytes.push((self.platform_version / 256 % 256) as u8);
        bytes.push((self.platform_version / 65536 % 256) as u8);
        bytes.push((self.platform_version / 16777216) as u8);
        assert(bytes@ =~= self.spec_bytes());
        bytes
    }

    /// Reads a serialized record. Succeeds if and only if there are exactly
    /// nine bytes.
    pub fn from_bytes(bytes: &[u8]) -> (version: Option<NeutronVersion>)
        ensures
            version is Some <==> bytes@.len() == VERSION_RECORD_LEN,
            version matches Some(v) ==> v.spec_bytes() == bytes@,
    {
        if bytes.len() != VERSION_RECORD_LEN {
            return None;
        }
        let flags = u16_from_le(bytes[3], bytes[4]);
        let platform_version = u32_from_le(bytes[5], bytes[6], bytes[7], bytes[8]);
        let v = NeutronVersion {
            format: bytes[0],
            root_vm: bytes[1],
            vm_version: bytes[2],
            flags,
            platform_version,
        };
        assert(v.spec_bytes() =~= bytes@);
        Some(v)
    }
}

/// A record that is serialized and read again is the same record.
pub proof fn lemma_version_round_trip(v: NeutronVersion, w: NeutronVersion)
    ensures
        v.spec_bytes().len() == VERSION_RECORD_LEN,
        v.spec_bytes() == w.spec_bytes() ==> v == w,
{
    if v.spec_bytes() == w.spec_bytes() {
        assert(v.spec_bytes()[0] == w.spec_bytes()[0]);
        assert(v.spec_bytes()[1] == w.spec_bytes()[1]);
        assert(v.spec_bytes()[2] == w.spec_bytes()[2]);
        assert(v.spec_bytes()[3] == w.spec_bytes()[3]);
        assert(v.spec_bytes()[4] == w.spec_bytes()[4]);
        assert(v.spec_bytes()[5] == w.spec_bytes()[5]);
        assert(v.spec_bytes()[6] == w.spec_bytes()[6]);
        assert(v.spec_bytes()[7] == w.spec_bytes()[7]);
        assert(v.spec_bytes()[8] == w.spec_bytes()[8]);
    }
}

/// A VM that can execute the top context of a call stack.
pub trait VMInterface {
    fn execute(&mut self) -> Result<NeutronVMResult, NeutronError>;
}

/// The surface through which a VM reaches the host: system calls, the
/// persistent state of the executing contract, and logging.
///
/// A call system says what its methods do by four relations between what
/// was before a call and what is after it. A call system that says nothing
/// leaves them as they are here: anything may happen.
pub trait CallSystem {
    /// Whether a read of `key` in `space` may lead from `before` and
    /// `stack` to `after` and `stack_after` and return `r`.
    open spec fn reads_state_key(
        before: &Self,
        after: &Self,
        stack: CallStackView,
        stack_after: CallStackView,
        space: u8,
        key: Seq<u8>,
        r: Result<Seq<u8>, NeutronError>,
    ) -> bool {
        true
    }

    /// Whether a write of `value` under `key` in `space` may lead from
    /// `before` and `stack` to `after` and `stack_after` and return `r`.
    open spec fn writes_state_key(
        before: &Self,
        after: &Self,
        stack: CallStackView,
        stack_after: CallStackView,
        space: u8,
        key: Seq<u8>,
        value: Seq<u8>,
        r: Result<(), NeutronError>,
    ) -> bool {
        true
    }

    /// Whether a system call of `function` of `feature` may lead from
    /// `before` and `stack` to `after` and `stack_after` and return `r`.
    open spec fn system_calls(
        before: &Self,
        after: &Self,
        stack: CallStackView,
        stack_after: CallStackView,
        feature: u32,
        function: u32,
        r: Result<u32, NeutronError>,
    ) -> bool {
        true
    }

    /// Whether logging `msg` at `level` may lead from `before` to `after`.
    open spec fn records(before: &Self, after: &Self, level: LogLevel, msg: Seq<char>) -> bool {
        true
    }

    /// General system call interface.
    fn system_call<S: GasSchedule>(
        &mut self,
        stack: &mut ContractCallStack<S>,
        feature: u32,
        function: u32,
    ) -> (r: Result<u32, NeutronError>)
        ensures
            Self::system_calls(
                old(self),
                final(self),
                old(stack)@,
                final(stack)@,
                feature,
                function,
                r,
            ),
    ;

    /// The block height at execution.
    fn block_height(&self) -> Result<u32, NeutronError>;

    /// Reads a key of the executing contract from the sub-namespace `space`.
    fn read_state_key<S: GasSchedule>(
        &mut self,
        stack: &mut ContractCallStack<S>,
        space: u8,
        key: &[u8],
    ) -> (r: Result<Vec<u8>, NeutronError>)
        ensures
            Self::reads_state_key(
                old(self),
                final(self),
                old(stack)@,
                final(stack)@,
                space,
                key@,
                bytes_result(r),
            ),
    ;

    /// Writes a key of the executing contract in the sub-namespace `space`.
    fn write_state_key<S: GasSchedule>(
        &mut self,
        stack: &mut ContractCallStack<S>,
        space: u8,
        key: &[u8],
        value: &[u8],
    ) -> (r: Result<(), NeutronError>)
        ensures
            Self::writes_state_key(
                old(self),
                final(self),
                old(stack)@,
                final(stack)@,
                space,
                key@,
                value@,
                r,
            ),
    ;

    fn log_error(&mut self, msg: &str)
        ensures
            Self::records(old(self), final(self), LogLevel::Error, msg@),
    ;

    fn log_warning(&mut self, msg: &str)
        ensures
            Self::records(old(self), final(self), LogLevel::Warning, msg@),
    ;

    fn log_info(&mut self, msg: &str)
        ensures
            Self::records(old(self), final(self), LogLevel::Info, msg@),
    ;

    fn log_debug(&mut self, msg: &str)
        ensures
            Self::records(old(self), final(self), LogLevel::Debug, msg@),
    ;
}

} // verus!
