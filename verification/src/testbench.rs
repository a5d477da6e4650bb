//! The testbench: a call system with the storage and logging features over
//! a store kept in memory, and the frame in which a top context executes.

use vstd::prelude::*;
use vstd::string::StringExecFns;

use crate::addressing::short_form;
use crate::callstack::CallStackView;
use crate::callstack::ContractCallStack;
use crate::callstack::GasSchedule;
use crate::db::DbView;
use crate::db::LayerView;
use crate::db::NeutronDB;
use crate::db::ProtoDB;
use crate::db::StateKey;
use crate::db::NEUTRONDB_USER_SPACE;
use crate::interface::CallSystem;
use crate::interface::NeutronVMResult;
use crate::interface::TransactionContext;
use crate::neutronerror::NeutronError;
use crate::neutronerror::RecoverableError;
use crate::neutronerror::UnrecoverableError;
use crate::syscall_interfaces::logging::compile_log_message;
use crate::syscall_interfaces::logging::message_compiled;
use crate::syscall_interfaces::logging::LoggingFunctions;
use crate::syscall_interfaces::logging::LoggingInterface;
use crate::syscall_interfaces::logging::LOGGING_FEATURE;
use crate::syscall_interfaces::storage::claim;
use crate::syscall_interfaces::storage::claimed;
use crate::syscall_interfaces::storage::GlobalStorage;
use crate::syscall_interfaces::storage::GlobalStorageFunctions;
use crate::syscall_interfaces::storage::GLOBAL_STORAGE_FEATURE;

verus! {

/// The version of the addresses whose contracts run on the x86 VM.
pub const X86_VM_VERSION: u32 = 2;

/// The level of a log message.
#[derive(Clone, Copy, Debug, PartialEq, Eq, Structural)]
pub enum LogLevel {
    Debug,
    Info,
    Warning,
    Error,
}

/// One message of the log.
#[derive(Debug)]
pub struct LogRecord {
    pub level: LogLevel,
    pub message: String,
}

/// One message of the log, its text as plain characters.
pub struct LogRecordView {
    pub level: LogLevel,
    pub message: Seq<char>,
}

impl View for LogRecord {
    type V = LogRecordView;

    open spec fn view(&self) -> LogRecordView {
        LogRecordView { level: self.level, message: self.message@ }
    }
}

/// A virtual environment in which smart contracts can be tested.
#[derive(Debug)]
pub struct Testbench {
    pub transaction: TransactionContext,
    pub db: ProtoDB,
    /// The messages that were logged, the oldest first.
    pub log: Vec<LogRecord>,
}

/// What a testbench is: its store and its log.
#[verifier::ext_equal]
pub struct TestbenchView {
    pub db: DbView,
    pub log: Seq<LogRecordView>,
}

impl View for Testbench {
    type V = TestbenchView;

    open spec fn view(&self) -> TestbenchView {
        TestbenchView {
            db: self.db@,
            log: Seq::new(self.log@.len(), |i: int| self.log@[i]@),
        }
    }
}

/// The key under which the store keeps `key` of the sub-namespace `space`
/// for the contract that executes: the short form of its address, and the
/// space byte followed by the key.
pub open spec fn state_key(stack: CallStackView, space: u8, key: Seq<u8>) -> StateKey {
    StateKey {
        address: short_form(stack.contexts.last().self_address),
        key: seq![space] + key,
    }
}

/// What reading a state key does to the call stack and gives: without a
/// context it fails with `ContextIndexEmpty`; else it is the read of the
/// store.
pub open spec fn state_read(db: DbView, stack: CallStackView, space: u8, key: Seq<u8>) -> (
    CallStackView,
    Result<Seq<u8>, NeutronError>,
) {
    if stack.contexts.len() == 0 {
        (stack, Err(NeutronError::Unrecoverable(UnrecoverableError::ContextIndexEmpty)))
    } else {
        db.read(stack, state_key(stack, space, key))
    }
}

/// What writing a state key does to the store and the call stack, and
/// gives: without a context it fails with `ContextIndexEmpty`; else it is
/// the write of the store.
pub open spec fn state_written(
    db: DbView,
    stack: CallStackView,
    space: u8,
    key: Seq<u8>,
    value: Seq<u8>,
) -> (DbView, CallStackView, Result<(), NeutronError>) {
    if stack.contexts.len() == 0 {
        (db, stack, Err(NeutronError::Unrecoverable(UnrecoverableError::ContextIndexEmpty)))
    } else {
        db.write(stack, state_key(stack, space, key), value)
    }
}

/// What `store_state` does: a key is popped, then a value, and the value is
/// written under the key in the user space.
pub open spec fn state_stored(db: DbView, stack: CallStackView) -> (
    DbView,
    CallStackView,
    Result<(), NeutronError>,
) {
    let (s1, key) = stack.popped();
    match key {
        Err(e) => (db, s1, Err(e)),
        Ok(k) => {
            let (s2, value) = s1.popped();
            match value {
                Err(e) => (db, s2, Err(e)),
                Ok(v) => state_written(db, s2, NEUTRONDB_USER_SPACE, k, v),
            }
        },
    }
}

/// What `load_state` does: a key is popped, the value under it in the user
/// space is read and pushed.
pub open spec fn state_loaded(db: DbView, stack: CallStackView) -> (
    CallStackView,
    Result<(), NeutronError>,
) {
    let (s1, key) = stack.popped();
    match key {
        Err(e) => (s1, Err(e)),
        Ok(k) => {
            let (s2, value) = state_read(db, s1, NEUTRONDB_USER_SPACE, k);
            match value {
                Err(e) => (s2, Err(e)),
                Ok(v) => s2.pushed(v),
            }
        },
    }
}

/// What a function of the storage feature does to the testbench and the
/// call stack, and gives.
pub open spec fn storage_function_run(
    bench: TestbenchView,
    stack: CallStackView,
    function: GlobalStorageFunctions,
) -> (TestbenchView, CallStackView, Result<(), NeutronError>) {
    match function {
        GlobalStorageFunctions::StoreState => {
            let (db, after, r) = state_stored(bench.db, stack);
            (TestbenchView { db, ..bench }, after, r)
        },
        GlobalStorageFunctions::LoadState => {
            let (after, r) = state_loaded(bench.db, stack);
            (bench, after, r)
        },
        GlobalStorageFunctions::KeyExists => (
            bench,
            stack,
            Err(NeutronError::Unrecoverable(UnrecoverableError::NotImplemented)),
        ),
    }
}

/// What logging at `level` does: the message is compiled from the SCCS and
/// added to the log.
pub open spec fn message_logged(bench: TestbenchView, stack: CallStackView, level: LogLevel) -> (
    TestbenchView,
    CallStackView,
    Result<(), NeutronError>,
) {
    let (after, message) = message_compiled(stack);
    match message {
        Err(e) => (bench, after, Err(e)),
        Ok(text) => (
            TestbenchView { log: bench.log.push(LogRecordView { level, message: text }), ..bench },
            after,
            Ok(()),
        ),
    }
}

/// What a function of the logging feature does to the testbench and the
/// call stack, and gives.
pub open spec fn logging_function_run(
    bench: TestbenchView,
    stack: CallStackView,
    function: LoggingFunctions,
) -> (TestbenchView, CallStackView, Result<(), NeutronError>) {
    message_logged(bench, stack, function.spec_level())
}

/// The storage feature's answer to a system call, and what the call does
/// to the testbench and the call stack.
pub open spec fn storage_called(
    bench: TestbenchView,
    stack: CallStackView,
    feature: u32,
    function: u32,
) -> (TestbenchView, CallStackView, Result<bool, NeutronError>) {
    if feature != GLOBAL_STORAGE_FEATURE {
        (bench, stack, Ok(false))
    } else {
        match GlobalStorageFunctions::spec_from_u32(function) {
            None => (
                bench,
                stack,
                Err(NeutronError::Recoverable(RecoverableError::InvalidSystemFunction)),
            ),
            Some(f) => {
                let (b, s, r) = storage_function_run(bench, stack, f);
                (b, s, claimed(r))
            },
        }
    }
}

/// The logging feature's answer to a system call, and what the call does
/// to the testbench and the call stack.
pub open spec fn logging_called(
    bench: TestbenchView,
    stack: CallStackView,
    feature: u32,
    function: u32,
) -> (TestbenchView, CallStackView, Result<bool, NeutronError>) {
    if feature != LOGGING_FEATURE {
        (bench, stack, Ok(false))
    } else {
        match LoggingFunctions::spec_from_u32(function) {
            None => (
                bench,
                stack,
                Err(NeutronError::Recoverable(RecoverableError::InvalidSystemFunction)),
            ),
            Some(f) => {
                let (b, s, r) = logging_function_run(bench, stack, f);
                (b, s, claimed(r))
            },
        }
    }
}

/// What a system call does to the testbench and the call stack, and gives.
/// The storage feature is asked first, then the logging feature; the first
/// that claims the call or fails ends it. A call that is claimed gives 0,
/// and so does one to a feature that the testbench lacks.
pub open spec fn system_called(
    bench: TestbenchView,
    stack: CallStackView,
    feature: u32,
    function: u32,
) -> (TestbenchView, CallStackView, Result<u32, NeutronError>) {
    let (b1, s1, storage) = storage_called(bench, stack, feature, function);
    match storage {
        Err(e) => (b1, s1, Err(e)),
        Ok(true) => (b1, s1, Ok(0u32)),
        Ok(false) => {
            let (b2, s2, logging) = logging_called(b1, s1, feature, function);
            match logging {
                Err(e) => (b2, s2, Err(e)),
                Ok(_) => (b2, s2, Ok(0u32)),
            }
        },
    }
}

impl Default for Testbench {
    fn default() -> (bench: Testbench)
        ensures
            bench@.db.storage == LayerView::empty(),
            bench@.db.checkpoints.len() == 0,
            bench@.log.len() == 0,
    {
        Testbench {
            transaction: TransactionContext {
                inputs: Vec::new(),
                outputs: Vec::new(),
                total_gas_fees: 0,
                total_fees: 0,
            },
            db: ProtoDB::default(),
            log: Vec::new(),
        }
    }
}

impl Testbench {
    fn state_key_bytes(space: u8, key: &[u8]) -> (k: Vec<u8>)
        ensures
            k@ == seq![space] + key@,
    {
        let mut k: Vec<u8> = Vec::new();
        k.push(space);
        let mut i: usize = 0;
        while i < key.len()
            invariant
                i <= key.len(),
                k@ == seq![space] + key@.subrange(0, i as int),
            decreases key.len() - i,
        {
            k.push(key[i]);
            assert(k@ =~= seq![space] + key@.subrange(0, i + 1));
            i += 1;
        }
        assert(key@.subrange(0, key.len() as int) =~= key@);
        k
    }

    /// Adds a message to the log.
    pub fn record(&mut self, level: LogLevel, msg: &str)
        ensures
            final(self)@ == (TestbenchView {
                log: old(self)@.log.push(LogRecordView { level, message: msg@ }),
                ..old(self)@
            }),
    {
        self.log.push(LogRecord { level, message: String::from_str(msg) });
        assert(self@.log =~= old(self)@.log.push(LogRecordView { level, message: msg@ }));
    }

    /// Compiles the message that the guest pushed onto the SCCS and adds it
    /// to the log at `level`.
    pub fn log_from_stack<S: GasSchedule>(
        &mut self,
        stack: &mut ContractCallStack<S>,
        level: LogLevel,
    ) -> (r: Result<(), NeutronError>)
        ensures
            (final(self)@, final(stack)@, r) == message_logged(old(self)@, old(stack)@, level),
    {
        let msg = compile_log_message(stack)?;
        self.record(level, msg.as_str());
        Ok(())
    }

    /// The storage feature's answer to a system call: `Ok(false)` for
    /// another feature, so that the next interface is tried;
    /// `InvalidSystemFunction` for a function that the feature lacks; else
    /// what `claimed` makes of the function's result.
    pub fn storage_syscall<S: GasSchedule>(
        &mut self,
        stack: &mut ContractCallStack<S>,
        feature: u32,
        function: u32,
    ) -> (r: Result<bool, NeutronError>)
        ensures
            (final(self)@, final(stack)@, r) == storage_called(
                old(self)@,
                old(stack)@,
                feature,
                function,
            ),
            feature != GLOBAL_STORAGE_FEATURE || GlobalStorageFunctions::spec_from_u32(function)
                is None ==> *final(self) == *old(self),
    {
        if feature != GLOBAL_STORAGE_FEATURE {
            return Ok(false);
        }
        match GlobalStorageFunctions::from_u32(function) {
            None => Err(NeutronError::Recoverable(RecoverableError::InvalidSystemFunction)),
            Some(GlobalStorageFunctions::KeyExists) => claim(self.key_exists(stack)),
            Some(GlobalStorageFunctions::LoadState) => claim(self.load_state(stack)),
            Some(GlobalStorageFunctions::StoreState) => claim(self.store_state(stack)),
        }
    }

    /// The logging feature's answer to a system call: `Ok(false)` for
    /// another feature, so that the next interface is tried;
    /// `InvalidSystemFunction` for a function that the feature lacks; else
    /// what `claimed` makes of the function's result.
    pub fn logging_syscall<S: GasSchedule>(
        &mut self,
        stack: &mut ContractCallStack<S>,
        feature: u32,
        function: u32,
    ) -> (r: Result<bool, NeutronError>)
        ensures
            (final(self)@, final(stack)@, r) == logging_called(
                old(self)@,
                old(stack)@,
                feature,
                function,
            ),
            feature != LOGGING_FEATURE || LoggingFunctions::spec_from_u32(function) is None
                ==> *final(self) == *old(self),
    {
        if feature != LOGGING_FEATURE {
            return Ok(false);
        }
        match LoggingFunctions::from_u32(function) {
            None => Err(NeutronError::Recoverable(RecoverableError::InvalidSystemFunction)),
            Some(f) => claim(self.log_from_stack(stack, f.level())),
        }
    }

    /// Opens the frame in which the top context executes: a checkpoint is
    /// made, and the VM is chosen by the version of the contract's address.
    ///
    /// Fails with `ContextIndexEmpty` without a context, which changes
    /// nothing, and with `UnknownVM` for a version other than that of the
    /// x86 VM, which clears all checkpoints.
    pub fn begin_top_context<S: GasSchedule>(&mut self, stack: &ContractCallStack<S>) -> (r: Result<
        (),
        NeutronError,
    >)
        ensures
            final(self)@.log == old(self)@.log,
            stack@.contexts.len() == 0 ==> r == Err::<(), NeutronError>(
                NeutronError::Unrecoverable(UnrecoverableError::ContextIndexEmpty),
            ) && final(self)@ == old(self)@,
            stack@.contexts.len() > 0 && stack@.contexts.last().self_address.version
                != X86_VM_VERSION ==> r == Err::<(), NeutronError>(
                NeutronError::Unrecoverable(UnrecoverableError::UnknownVM),
            ) && final(self)@.db == old(self)@.db.cleared(),
            stack@.contexts.len() > 0 && stack@.contexts.last().self_address.version
                == X86_VM_VERSION ==> r is Ok && final(self)@.db == old(self)@.db.checkpointed(),
    {
        let version = match stack.peek_context(0) {
            Ok(context) => context.self_address.version,
            Err(_) => {
                return Err(NeutronError::Unrecoverable(UnrecoverableError::ContextIndexEmpty));
            },
        };
        let _ = self.db.checkpoint();
        if version != X86_VM_VERSION {
            self.db.clear_checkpoints();
            return Err(NeutronError::Unrecoverable(UnrecoverableError::UnknownVM));
        }
        Ok(())
    }

    /// Closes the frame in which the top context executed: a result commits
    /// the state, an error clears all checkpoints. Returns what it is given.
    pub fn finish_top_context(&mut self, result: Result<NeutronVMResult, NeutronError>) -> (r:
        Result<NeutronVMResult, NeutronError>)
        ensures
            r == result,
            final(self)@.log == old(self)@.log,
            result is Ok ==> final(self)@.db == old(self)@.db.committed(),
            result is Err ==> final(self)@.db == old(self)@.db.cleared(),
    {
        match result {
            Ok(v) => {
                let _ = self.db.commit();
                Ok(v)
            },
            Err(e) => {
                self.db.clear_checkpoints();
                Err(e)
            },
        }
    }

    /// Puts a contract image onto the SCCS for a deploy: the data, the code,
    /// the section info `[1, 1]` and the version header `[2, 0, 0, 0]`, which
    /// ends on top. The sections must be mapped where the VM loads them:
    /// `text_address` at 0x10000 and `data_address` at 0x80020000; else
    /// nothing is pushed and the image is refused with
    /// `ErrorInitializingVM`. A push that fails ends the staging with its
    /// error.
    pub fn stage_image<S: GasSchedule>(
        stack: &mut ContractCallStack<S>,
        text_address: u64,
        text: &[u8],
        data_address: u64,
        data: &[u8],
    ) -> (r: Result<(), NeutronError>)
        ensures
            (final(stack)@, r) == image_staged(
                old(stack)@,
                text_address,
                text@,
                data_address,
                data@,
            ),
    {
        if text_address != 0x10000 || data_address != 0x8002_0000 {
            return Err(NeutronError::Unrecoverable(UnrecoverableError::ErrorInitializingVM));
        }
        stack.push_sccs(data)?;
        stack.push_sccs(text)?;
        let section_info: [u8; 2] = [1, 1];
        stack.push_sccs(section_info.as_slice())?;
        let version: [u8; 4] = [2, 0, 0, 0];
        stack.push_sccs(version.as_slice())?;
        assert(section_info@ =~= seq![1u8, 1u8]);
        assert(version@ =~= seq![2u8, 0u8, 0u8, 0u8]);
        Ok(())
    }
}

/// What staging a contract image does to the call stack, and gives.
pub open spec fn image_staged(
    stack: CallStackView,
    text_address: u64,
    text: Seq<u8>,
    data_address: u64,
    data: Seq<u8>,
) -> (CallStackView, Result<(), NeutronError>) {
    if text_address != 0x10000 || data_address != 0x8002_0000 {
        (stack, Err(NeutronError::Unrecoverable(UnrecoverableError::ErrorInitializingVM)))
    } else {
        let (s1, r1) = stack.pushed(data);
        if r1 is Err {
            (s1, r1)
        } else {
            let (s2, r2) = s1.pushed(text);
            if r2 is Err {
                (s2, r2)
            } else {
                let (s3, r3) = s2.pushed(seq![1u8, 1u8]);
                if r3 is Err {
                    (s3, r3)
                } else {
                    s3.pushed(seq![2u8, 0u8, 0u8, 0u8])
                }
            }
        }
    }
}

impl GlobalStorage for Testbench {
    /// A function does what `storage_function_run` says.
    open spec fn runs(
        before: &Self,
        after: &Self,
        stack: CallStackView,
        stack_after: CallStackView,
        f: GlobalStorageFunctions,
        r: Result<(), NeutronError>,
    ) -> bool {
        (after@, stack_after, r) == storage_function_run(before@, stack, f)
    }

    fn try_syscall<S: GasSchedule>(
        &mut self,
        stack: &mut ContractCallStack<S>,
        feature: u32,
        function: u32,
    ) -> (r: Result<bool, NeutronError>) {
        let r = self.storage_syscall(stack, feature, function);
        proof {
            if feature == GLOBAL_STORAGE_FEATURE {
                if let Some(f) = GlobalStorageFunctions::spec_from_u32(function) {
                    let ran = storage_function_run(old(self)@, old(stack)@, f).2;
                    assert(Self::runs(old(self), &*self, old(stack)@, stack@, f, ran));
                }
            }
        }
        r
    }

    fn store_state<S: GasSchedule>(&mut self, stack: &mut ContractCallStack<S>) -> (r: Result<
        (),
        NeutronError,
    >)
        ensures
            final(self)@.log == old(self)@.log,
            (final(self)@.db, final(stack)@, r) == state_stored(old(self)@.db, old(stack)@),
    {
        let key = stack.pop_sccs()?;
        let value = stack.pop_sccs()?;
        self.write_state_key(stack, NEUTRONDB_USER_SPACE, key.as_slice(), value.as_slice())
    }

    fn load_state<S: GasSchedule>(&mut self, stack: &mut ContractCallStack<S>) -> (r: Result<
        (),
        NeutronError,
    >)
        ensures
            final(self)@ == old(self)@,
            (final(stack)@, r) == state_loaded(old(self)@.db, old(stack)@),
    {
        let key = stack.pop_sccs()?;
        let value = self.read_state_key(stack, NEUTRONDB_USER_SPACE, key.as_slice())?;
        stack.push_sccs(value.as_slice())?;
        Ok(())
    }

    fn key_exists<S: GasSchedule>(&mut self, _stack: &mut ContractCallStack<S>) -> (r: Result<
        (),
        NeutronError,
    >)
        ensures
            final(self)@ == old(self)@,
            final(_stack)@ == old(_stack)@,
            r == Err::<(), NeutronError>(
                NeutronError::Unrecoverable(UnrecoverableError::NotImplemented),
            ),
    {
        Err(NeutronError::Unrecoverable(UnrecoverableError::NotImplemented))
    }
}

impl LoggingInterface for Testbench {
    /// Logging does what `message_logged` says.
    open spec fn logs_from_stack(
        before: &Self,
        after: &Self,
        stack: CallStackView,
        stack_after: CallStackView,
        level: LogLevel,
        r: Result<(), NeutronError>,
    ) -> bool {
        (after@, stack_after, r) == message_logged(before@, stack, level)
    }

    fn try_syscall<S: GasSchedule>(
        &mut self,
        stack: &mut ContractCallStack<S>,
        feature: u32,
        function: u32,
    ) -> (r: Result<bool, NeutronError>) {
        let r = self.logging_syscall(stack, feature, function);
        proof {
            if feature == LOGGING_FEATURE {
                if let Some(f) = LoggingFunctions::spec_from_u32(function) {
                    let logged = logging_function_run(old(self)@, old(stack)@, f).2;
                    assert(Self::logs_from_stack(
                        old(self),
                        &*self,
                        old(stack)@,
                        stack@,
                        f.spec_level(),
                        logged,
                    ));
                }
            }
        }
        r
    }

    fn log_debug<S: GasSchedule>(&mut self, stack: &mut ContractCallStack<S>) -> (r: Result<
        (),
        NeutronError,
    >) {
        self.log_from_stack(stack, LogLevel::Debug)
    }

    fn log_info<S: GasSchedule>(&mut self, stack: &mut ContractCallStack<S>) -> (r: Result<
        (),
        NeutronError,
    >) {
        self.log_from_stack(stack, LogLevel::Info)
    }

    fn log_warning<S: GasSchedule>(&mut self, stack: &mut ContractCallStack<S>) -> (r: Result<
        (),
        NeutronError,
    >) {
        self.log_from_stack(stack, LogLevel::Warning)
    }

    fn log_error<S: GasSchedule>(&mut self, stack: &mut ContractCallStack<S>) -> (r: Result<
        (),
        NeutronError,
    >) {
        self.log_from_stack(stack, LogLevel::Error)
    }
}

impl CallSystem for Testbench {
    /// A read leaves the testbench as it is and does what `state_read`
    /// says.
    open spec fn reads_state_key(
        before: &Self,
        after: &Self,
        stack: CallStackView,
        stack_after: CallStackView,
        space: u8,
        key: Seq<u8>,
        r: Result<Seq<u8>, NeutronError>,
    ) -> bool {
        &&& after@ == before@
        &&& (stack_after, r) == state_read(before@.db, stack, space, key)
    }

    /// A write leaves the log as it is and does what `state_written` says.
    open spec fn writes_state_key(
        before: &Self,
        after: &Self,
        stack: CallStackView,
        stack_after: CallStackView,
        space: u8,
        key: Seq<u8>,
        value: Seq<u8>,
        r: Result<(), NeutronError>,
    ) -> bool {
        &&& after@.log == before@.log
        &&& (after@.db, stack_after, r) == state_written(before@.db, stack, space, key, value)
    }

    /// A system call does what `system_called` says.
    open spec fn system_calls(
        before: &Self,
        after: &Self,
        stack: CallStackView,
        stack_after: CallStackView,
        feature: u32,
        function: u32,
        r: Result<u32, NeutronError>,
    ) -> bool {
        (after@, stack_after, r) == system_called(before@, stack, feature, function)
    }

    /// The message is added to the log at its level; the store stays.
    open spec fn records(before: &Self, after: &Self, level: LogLevel, msg: Seq<char>) -> bool {
        after@ == (TestbenchView {
            log: before@.log.push(LogRecordView { level, message: msg }),
            ..before@
        })
    }

    /// Goes through the feature interfaces until one claims the call or
    /// fails.
    fn system_call<S: GasSchedule>(
        &mut self,
        stack: &mut ContractCallStack<S>,
        feature: u32,
        function: u32,
    ) -> (r: Result<u32, NeutronError>)
        ensures
            (final(self)@, final(stack)@, r) == system_called(
                old(self)@,
                old(stack)@,
                feature,
                function,
            ),
    {
        if self.storage_syscall(stack, feature, function)? {
            return Ok(0);
        }
        if self.logging_syscall(stack, feature, function)? {
            return Ok(0);
        }
        Ok(0)
    }

    /// The block height at execution.
    fn block_height(&self) -> (r: Result<u32, NeutronError>)
        ensures
            r == Ok::<u32, NeutronError>(1),
    {
        Ok(1)
    }

    /// Reads a state key of the contract that executes.
    fn read_state_key<S: GasSchedule>(
        &mut self,
        stack: &mut ContractCallStack<S>,
        space: u8,
        key: &[u8],
    ) -> (r: Result<Vec<u8>, NeutronError>)
        ensures
            final(self)@ == old(self)@,
            final(stack)@ == state_read(old(self)@.db, old(stack)@, space, key@).0,
            crate::callstack::bytes_result_is(
                r,
                state_read(old(self)@.db, old(stack)@, space, key@).1,
            ),
    {
        let address = match stack.peek_context(0) {
            Ok(context) => context.self_address.to_short_address(),
            Err(_) => {
                return Err(NeutronError::Unrecoverable(UnrecoverableError::ContextIndexEmpty));
            },
        };
        let k = Testbench::state_key_bytes(space, key);
        self.db.read_key(stack, &address, k.as_slice())
    }

    /// Writes a state key of the contract that executes.
    fn write_state_key<S: GasSchedule>(
        &mut self,
        stack: &mut ContractCallStack<S>,
        space: u8,
        key: &[u8],
        value: &[u8],
    ) -> (r: Result<(), NeutronError>)
        ensures
            final(self)@.log == old(self)@.log,
            (final(self)@.db, final(stack)@, r) == state_written(
                old(self)@.db,
                old(stack)@,
                space,
                key@,
                value@,
            ),
    {
        let address = match stack.peek_context(0) {
            Ok(context) => context.self_address.to_short_address(),
            Err(_) => {
                return Err(NeutronError::Unrecoverable(UnrecoverableError::ContextIndexEmpty));
            },
        };
        let k = Testbench::state_key_bytes(space, key);
        self.db.write_key(stack, &address, k.as_slice(), value)
    }

    fn log_error(&mut self, msg: &str) {
        self.record(LogLevel::Error, msg);
    }

    fn log_warning(&mut self, msg: &str) {
        self.record(LogLevel::Warning, msg);
    }

    fn log_info(&mut self, msg: &str) {
        self.record(LogLevel::Info, msg);
    }

    fn log_debug(&mut self, msg: &str) {
        self.record(LogLevel::Debug, msg);
    }
}

} // verus!
