//! The two-tier error taxonomy that every operation of the host returns.

use vstd::prelude::*;
use vstd::string::StringExecFns;

verus! {

/// Errors that abort the current execution; the guest never observes them.
#[derive(Clone, Copy, Debug, PartialEq, Eq, Structural)]
pub enum UnrecoverableError {
    NotImplemented,
    StateOutOfRent,
    ContextIndexEmpty,
    UnknownVM,
    DatabaseCommitError,
    DatabaseWritingError,
    ErrorInitializingVM,
}

/// Errors that the guest may observe and react to. Each has a numeric code
/// that is placed in `EAX` when an interrupt returns.
#[derive(Clone, Copy, Debug, PartialEq, Eq, Structural)]
pub enum RecoverableError {
    StackIndexDoesntExist,
    StackItemTooLarge,
    StackItemTooSmall,
    InvalidSystemFunction,
    InvalidSystemFeature,
    ErrorCopyingIntoVM,
    ErrorCopyingFromVM,
    ContractSignaledError,
    ContractExecutionError,
    InvalidHypervisorInterrupt,
    /// Special: the hypervisor halts the VM instead of resuming it.
    OutOfGas,
}

/// The primary error type of the host.
#[derive(Clone, Copy, Debug, PartialEq, Eq, Structural)]
pub enum NeutronError {
    /// The contract may handle this error and go on.
    Recoverable(RecoverableError),
    /// The VM must terminate at once.
    Unrecoverable(UnrecoverableError),
}

/// The code of the first recoverable error; the others follow in order.
pub const FIRST_RECOVERABLE_CODE: u32 = 0x8000_0001;

impl RecoverableError {
    /// Position of the error in the code table, starting at 0.
    pub open spec fn ordinal(self) -> nat {
        match self {
            RecoverableError::StackIndexDoesntExist => 0,
            RecoverableError::StackItemTooLarge => 1,
            RecoverableError::StackItemTooSmall => 2,
            RecoverableError::InvalidSystemFunction => 3,
            RecoverableError::InvalidSystemFeature => 4,
            RecoverableError::ErrorCopyingIntoVM => 5,
            RecoverableError::ErrorCopyingFromVM => 6,
            RecoverableError::ContractSignaledError => 7,
            RecoverableError::ContractExecutionError => 8,
            RecoverableError::InvalidHypervisorInterrupt => 9,
            RecoverableError::OutOfGas => 10,
        }
    }

    /// The numeric code that the guest sees for this error.
    pub open spec fn spec_code(self) -> u32 {
        (FIRST_RECOVERABLE_CODE + self.ordinal()) as u32
    }

    /// The numeric code that the guest sees for this error.
    #[verifier::when_used_as_spec(spec_code)]
    pub fn code(self) -> (c: u32)
        ensures
            c == self.spec_code(),
            c >= FIRST_RECOVERABLE_CODE,
    {
        match self {
            RecoverableError::StackIndexDoesntExist => 0x8000_0001,
            RecoverableError::StackItemTooLarge => 0x8000_0002,
            RecoverableError::StackItemTooSmall => 0x8000_0003,
            RecoverableError::InvalidSystemFunction => 0x8000_0004,
            RecoverableError::InvalidSystemFeature => 0x8000_0005,
            RecoverableError::ErrorCopyingIntoVM => 0x8000_0006,
            RecoverableError::ErrorCopyingFromVM => 0x8000_0007,
            RecoverableError::ContractSignaledError => 0x8000_0008,
            RecoverableError::ContractExecutionError => 0x8000_0009,
            RecoverableError::InvalidHypervisorInterrupt => 0x8000_000A,
            RecoverableError::OutOfGas => 0x8000_000B,
        }
    }

    /// The name of the variant.
    pub open spec fn spec_name(self) -> Seq<char> {
        match self {
            RecoverableError::StackIndexDoesntExist => "StackIndexDoesntExist"@,
            RecoverableError::StackItemTooLarge => "StackItemTooLarge"@,
            RecoverableError::StackItemTooSmall => "StackItemTooSmall"@,
            RecoverableError::InvalidSystemFunction => "InvalidSystemFunction"@,
            RecoverableError::InvalidSystemFeature => "InvalidSystemFeature"@,
            RecoverableError::ErrorCopyingIntoVM => "ErrorCopyingIntoVM"@,
            RecoverableError::ErrorCopyingFromVM => "ErrorCopyingFromVM"@,
            RecoverableError::ContractSignaledError => "ContractSignaledError"@,
            RecoverableError::ContractExecutionError => "ContractExecutionError"@,
            RecoverableError::InvalidHypervisorInterrupt => "InvalidHypervisorInterrupt"@,
            RecoverableError::OutOfGas => "OutOfGas"@,
        }
    }

    /// The name of the variant.
    pub fn name(self) -> (s: &'static str)
        ensures
            s@ == self.spec_name(),
    {
        match self {
            RecoverableError::StackIndexDoesntExist => "StackIndexDoesntExist",
            RecoverableError::StackItemTooLarge => "StackItemTooLarge",
            RecoverableError::StackItemTooSmall => "StackItemTooSmall",
            RecoverableError::InvalidSystemFunction => "InvalidSystemFunction",
            RecoverableError::InvalidSystemFeature => "InvalidSystemFeature",
            RecoverableError::ErrorCopyingIntoVM => "ErrorCopyingIntoVM",
            RecoverableError::ErrorCopyingFromVM => "ErrorCopyingFromVM",
            RecoverableError::ContractSignaledError => "ContractSignaledError",
            RecoverableError::ContractExecutionError => "ContractExecutionError",
            RecoverableError::InvalidHypervisorInterrupt => "InvalidHypervisorInterrupt",
            RecoverableError::OutOfGas => "OutOfGas",
        }
    }
}

impl UnrecoverableError {
    /// The name of the variant.
    pub open spec fn spec_name(self) -> Seq<char> {
        match self {
            UnrecoverableError::NotImplemented => "NotImplemented"@,
            UnrecoverableError::StateOutOfRent => "StateOutOfRent"@,
            UnrecoverableError::ContextIndexEmpty => "ContextIndexEmpty"@,
            UnrecoverableError::UnknownVM => "UnknownVM"@,
            UnrecoverableError::DatabaseCommitError => "DatabaseCommitError"@,
            UnrecoverableError::DatabaseWritingError => "DatabaseWritingError"@,
            UnrecoverableError::ErrorInitializingVM => "ErrorInitializingVM"@,
        }
    }

    /// The name of the variant.
    pub fn name(self) -> (s: &'static str)
        ensures
            s@ == self.spec_name(),
    {
        match self {
            UnrecoverableError::NotImplemented => "NotImplemented",
            UnrecoverableError::StateOutOfRent => "StateOutOfRent",
            UnrecoverableError::ContextIndexEmpty => "ContextIndexEmpty",
            UnrecoverableError::UnknownVM => "UnknownVM",
            UnrecoverableError::DatabaseCommitError => "DatabaseCommitError",
            UnrecoverableError::DatabaseWritingError => "DatabaseWritingError",
            UnrecoverableError::ErrorInitializingVM => "ErrorInitializingVM",
        }
    }
}

impl NeutronError {
    /// The text that describes the error: its tier, then its name.
    pub open spec fn spec_message(self) -> Seq<char> {
        match self {
            NeutronError::Recoverable(e) => "Recoverable Failure! "@ + e.spec_name(),
            NeutronError::Unrecoverable(e) => "Unrecoverable Failure! "@ + e.spec_name(),
        }
    }

    /// The text that describes the error: its tier, then its name.
    pub fn message(&self) -> (s: String)
        ensures
            s@ == self.spec_message(),
    {
        match self {
            NeutronError::Recoverable(e) => {
                String::from_str("Recoverable Failure! ").concat(e.name())
            },
            NeutronError::Unrecoverable(e) => {
                String::from_str("Unrecoverable Failure! ").concat(e.name())
            },
        }
    }
}

/// Distinct recoverable errors have distinct codes, and every code lies in
/// the range reserved for them.
pub proof fn lemma_codes_are_distinct(a: RecoverableError, b: RecoverableError)
    ensures
        a.spec_code() == b.spec_code() <==> a == b,
        FIRST_RECOVERABLE_CODE <= a.spec_code() <= FIRST_RECOVERABLE_CODE + 10,
{
}

} // verus!
