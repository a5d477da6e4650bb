//! Logging: the feature through which a contract writes to the host's log.
//!
//! Functions:
//!
//! * log_debug(count, string, ...)
//! * log_info(count, string, ...)
//! * log_warning(count, string, ...)
//! * log_error(count, string, ...)
//!
//! The guest pushes the fragments of a message from the first to the last,
//! and then their number. So it needs no allocator to print; the host pops
//! the last fragment first and puts the fragments back in order.

use vstd::prelude::*;
use vstd::string::StringExecFns;

use crate::callstack::CallStackView;
use crate::callstack::ContractCallStack;
use crate::callstack::GasSchedule;
use crate::neutronerror::NeutronError;
use crate::neutronerror::RecoverableError;
use crate::syscall_interfaces::storage::claim;
use crate::syscall_interfaces::storage::claimed;
use crate::testbench::LogLevel;

verus! {

/// The feature number of logging.
pub const LOGGING_FEATURE: u32 = 2;

/// The functions of logging, numbered from 1.
#[derive(Clone, Copy, Debug, PartialEq, Eq, Structural)]
pub enum LoggingFunctions {
    LogDebug,
    LogInfo,
    LogWarning,
    LogError,
}

impl LoggingFunctions {
    /// The function that a number stands for, if any.
    pub open spec fn spec_from_u32(function: u32) -> Option<LoggingFunctions> {
        if function == 1 {
            Some(LoggingFunctions::LogDebug)
        } else if function == 2 {
            Some(LoggingFunctions::LogInfo)
        } else if function == 3 {
            Some(LoggingFunctions::LogWarning)
        } else if function == 4 {
            Some(LoggingFunctions::LogError)
        } else {
            None
        }
    }

    /// The function that a number stands for, if any.
    #[verifier::when_used_as_spec(spec_from_u32)]
    pub fn from_u32(function: u32) -> (f: Option<LoggingFunctions>)
        ensures
            f == LoggingFunctions::spec_from_u32(function),
    {
        match function {
            1 => Some(LoggingFunctions::LogDebug),
            2 => Some(LoggingFunctions::LogInfo),
            3 => Some(LoggingFunctions::LogWarning),
            4 => Some(LoggingFunctions::LogError),
            _ => None,
        }
    }
}

impl LoggingFunctions {
    /// The level at which the function logs.
    pub open spec fn spec_level(self) -> LogLevel {
        match self {
            LoggingFunctions::LogDebug => LogLevel::Debug,
            LoggingFunctions::LogInfo => LogLevel::Info,
            LoggingFunctions::LogWarning => LogLevel::Warning,
            LoggingFunctions::LogError => LogLevel::Error,
        }
    }

    /// The level at which the function logs.
    #[verifier::when_used_as_spec(spec_level)]
    pub fn level(self) -> (l: LogLevel)
        ensures
            l == self.spec_level(),
    {
        match self {
            LoggingFunctions::LogDebug => LogLevel::Debug,
            LoggingFunctions::LogInfo => LogLevel::Info,
            LoggingFunctions::LogWarning => LogLevel::Warning,
            LoggingFunctions::LogError => LogLevel::Error,
        }
    }
}

/// The text that a lossy UTF-8 decoding makes of a byte string.
pub uninterp spec fn utf8_lossy(bytes: Seq<u8>) -> Seq<char>;

/// Calls `String::from_utf8_lossy` and takes the text as an owned string.
/// The text is a function of the bytes alone.
#[verifier::external_body]
fn decode_lossy(bytes: &[u8]) -> (text: String)
    ensures
        text@ == utf8_lossy(bytes@),
{
    String::from_utf8_lossy(bytes).into_owned()
}

/// What popping `n` items one after the other does and gives: the items in
/// the order in which they were popped. The first pop that fails ends the
/// popping with its error.
pub open spec fn popped_items(stack: CallStackView, n: nat) -> (
    CallStackView,
    Result<Seq<Seq<u8>>, NeutronError>,
)
    decreases n,
{
    if n == 0 {
        (stack, Ok(Seq::empty()))
    } else {
        let (before, earlier) = popped_items(stack, (n - 1) as nat);
        match earlier {
            Err(e) => (before, Err(e)),
            Ok(items) => {
                let (after, item) = before.popped();
                match item {
                    Err(e) => (after, Err(e)),
                    Ok(bytes) => (after, Ok(items.push(bytes))),
                }
            },
        }
    }
}

/// The texts of the fragments, the last one first.
pub open spec fn joined_backwards(fragments: Seq<Seq<u8>>) -> Seq<char>
    decreases fragments.len(),
{
    if fragments.len() == 0 {
        Seq::empty()
    } else {
        utf8_lossy(fragments.last()) + joined_backwards(fragments.drop_last())
    }
}

/// What compiling a log message does to the call stack and gives. The
/// count is popped: an item of exactly one byte, else the message is
/// refused as too small or too large. Then that many fragments are popped,
/// and the message is their texts in the order that the guest meant, which
/// is the reverse of the order in which they were popped.
pub open spec fn message_compiled(stack: CallStackView) -> (
    CallStackView,
    Result<Seq<char>, NeutronError>,
) {
    let (after_count, count) = stack.popped();
    match count {
        Err(e) => (after_count, Err(e)),
        Ok(item) => if item.len() < 1 {
            (after_count, Err(NeutronError::Recoverable(RecoverableError::StackItemTooSmall)))
        } else if item.len() > 1 {
            (after_count, Err(NeutronError::Recoverable(RecoverableError::StackItemTooLarge)))
        } else {
            let (after, fragments) = popped_items(after_count, item[0] as nat);
            match fragments {
                Err(e) => (after, Err(e)),
                Ok(list) => (after, Ok(joined_backwards(list))),
            }
        },
    }
}

/// Compiles the log message that the guest pushed onto the SCCS.
pub fn compile_log_message<S: GasSchedule>(stack: &mut ContractCallStack<S>) -> (r: Result<
    String,
    NeutronError,
>)
    ensures
        final(stack)@ == message_compiled(old(stack)@).0,
        match r {
            Ok(text) => message_compiled(old(stack)@).1 == Ok::<Seq<char>, NeutronError>(text@),
            Err(e) => message_compiled(old(stack)@).1 == Err::<Seq<char>, NeutronError>(e),
        },
{
    let count_item = stack.pop_sccs()?;
    if count_item.len() < 1 {
        return Err(NeutronError::Recoverable(RecoverableError::StackItemTooSmall));
    }
    if count_item.len() > 1 {
        return Err(NeutronError::Recoverable(RecoverableError::StackItemTooLarge));
    }
    let count = count_item[0];
    let ghost start = stack@;
    let ghost mut fragments: Seq<Seq<u8>> = Seq::empty();
    let mut messages: Vec<String> = Vec::new();
    let mut i: u8 = 0;
    while i < count
        invariant
            i <= count,
            old(stack)@.popped().0 == start,
            old(stack)@.popped().1 matches Ok(item) && item.len() == 1 && item[0] == count,
            popped_items(start, i as nat) == (stack@, Ok::<Seq<Seq<u8>>, NeutronError>(fragments)),
            fragments.len() == i,
            messages@.len() == i,
            forall|j: int| 0 <= j < i ==> (#[trigger] messages@[j])@ == utf8_lossy(fragments[j]),
        decreases count - i,
    {
        let ghost before = stack@;
        match stack.pop_sccs() {
            Err(e) => {
                proof {
                    lemma_failed_pop_ends(start, i as nat, count as nat, e);
                }
                return Err(e);
            },
            Ok(item) => {
                messages.push(decode_lossy(item.as_slice()));
                proof {
                    fragments = fragments.push(item@);
                }
            },
        }
        i += 1;
    }
    let mut text = String::new();
    let mut j: usize = messages.len();
    assert(fragments.subrange(0, j as int) =~= fragments);
    while j > 0
        invariant
            j <= messages@.len(),
            messages@.len() == fragments.len(),
            forall|k: int|
                0 <= k < messages@.len() ==> (#[trigger] messages@[k])@ == utf8_lossy(fragments[k]),
            text@ + joined_backwards(fragments.subrange(0, j as int)) == joined_backwards(fragments),
        decreases j,
    {
        let ghost head = fragments.subrange(0, j as int);
        assert(head.last() == fragments[j - 1]);
        assert(head.drop_last() =~= fragments.subrange(0, j - 1));
        let ghost earlier = text@;
        text.append(messages[j - 1].as_str());
        assert(text@ + joined_backwards(fragments.subrange(0, j - 1)) =~= earlier + (utf8_lossy(
            fragments[j - 1],
        ) + joined_backwards(fragments.subrange(0, j - 1))));
        j -= 1;
    }
    assert(joined_backwards(fragments.subrange(0, 0)) =~= Seq::<char>::empty());
    assert(text@ =~= text@ + Seq::<char>::empty());
    Ok(text)
}

/// Once a pop has failed, popping more items fails in the same way.
proof fn lemma_failed_pop_ends(start: CallStackView, done: nat, count: nat, e: NeutronError)
    requires
        done < count,
        popped_items(start, done).1 is Ok,
        popped_items(start, done).0.popped().1 == Err::<Seq<u8>, NeutronError>(e),
    ensures
        popped_items(start, count) == (
            popped_items(start, done).0.popped().0,
            Err::<Seq<Seq<u8>>, NeutronError>(e),
        ),
    decreases count - done,
{
    if count == done + 1 {
    } else {
        lemma_failed_pop_ends(start, done, (count - 1) as nat, e);
    }
}

/// The logging feature of a call system.
pub trait LoggingInterface: Sized {
    /// Runs the function if `feature` is that of logging.
    ///
    /// For another feature it returns `Ok(false)`, so that the next
    /// interface is tried; for a function other than 1 to 4 it fails with
    /// `InvalidSystemFunction`. Neither runs a log method nor touches the
    /// interface or the call stack. Else the log method of the function's
    /// level runs once, on the call stack as it came, and what it returns
    /// is answered: `Ok(true)` for `Ok`, and its error.
    fn try_syscall<S: GasSchedule>(
        &mut self,
        stack: &mut ContractCallStack<S>,
        feature: u32,
        function: u32,
    ) -> (r: Result<bool, NeutronError>)
        ensures
            feature != LOGGING_FEATURE ==> {
                &&& r == Ok::<bool, NeutronError>(false)
                &&& final(stack)@ == old(stack)@
                &&& *final(self) == *old(self)
            },
            feature == LOGGING_FEATURE && LoggingFunctions::spec_from_u32(function) is None ==> {
                &&& r == Err::<bool, NeutronError>(
                    NeutronError::Recoverable(RecoverableError::InvalidSystemFunction),
                )
                &&& final(stack)@ == old(stack)@
                &&& *final(self) == *old(self)
            },
            feature == LOGGING_FEATURE ==> (LoggingFunctions::spec_from_u32(function) matches Some(
                f,
            ) ==> exists|logged: Result<(), NeutronError>|
                #[trigger] Self::logs_from_stack(
                    old(self),
                    final(self),
                    old(stack)@,
                    final(stack)@,
                    f.spec_level(),
                    logged,
                ) && r == claimed(logged)),
    {
        if feature != LOGGING_FEATURE {
            return Ok(false);
        }
        match LoggingFunctions::from_u32(function) {
            None => Err(NeutronError::Recoverable(RecoverableError::InvalidSystemFunction)),
            Some(LoggingFunctions::LogDebug) => claim(self.log_debug(stack)),
            Some(LoggingFunctions::LogInfo) => claim(self.log_info(stack)),
            Some(LoggingFunctions::LogWarning) => claim(self.log_warning(stack)),
            Some(LoggingFunctions::LogError) => claim(self.log_error(stack)),
        }
    }

    /// Whether logging at `level` the message that the guest pushed may
    /// lead from `before` and `stack` to `after` and `stack_after` and
    /// return `r`. An interface that says nothing leaves this as it is
    /// here: anything may happen.
    open spec fn logs_from_stack(
        before: &Self,
        after: &Self,
        stack: CallStackView,
        stack_after: CallStackView,
        level: LogLevel,
        r: Result<(), NeutronError>,
    ) -> bool {
        true
    }

    fn log_debug<S: GasSchedule>(&mut self, stack: &mut ContractCallStack<S>) -> (r: Result<
        (),
        NeutronError,
    >)
        ensures
            Self::logs_from_stack(
                old(self),
                final(self),
                old(stack)@,
                final(stack)@,
                LogLevel::Debug,
                r,
            ),
    ;

    fn log_info<S: GasSchedule>(&mut self, stack: &mut ContractCallStack<S>) -> (r: Result<
        (),
        NeutronError,
    >)
        ensures
            Self::logs_from_stack(
                old(self),
                final(self),
                old(stack)@,
                final(stack)@,
                LogLevel::Info,
                r,
            ),
    ;

    fn log_warning<S: GasSchedule>(&mut self, stack: &mut ContractCallStack<S>) -> (r: Result<
        (),
        NeutronError,
    >)
        ensures
            Self::logs_from_stack(
                old(self),
                final(self),
                old(stack)@,
                final(stack)@,
                LogLevel::Warning,
                r,
            ),
    ;

    fn log_error<S: GasSchedule>(&mut self, stack: &mut ContractCallStack<S>) -> (r: Result<
        (),
        NeutronError,
    >)
        ensures
            Self::logs_from_stack(
                old(self),
                final(self),
                old(stack)@,
                final(stack)@,
                LogLevel::Error,
                r,
            ),
    ;
}

} // verus!
