//! Global storage: the feature through which a contract keeps state.
//!
//! Functions:
//!
//! * store_state(key, value) -> ()
//! * load_state(key) -> (value)
//! * key_exists(key) -> (bool)

use vstd::prelude::*;

use crate::callstack::CallStackView;
use crate::callstack::ContractCallStack;
use crate::callstack::GasSchedule;
use crate::neutronerror::NeutronError;
use crate::neutronerror::RecoverableError;

verus! {

/// The feature number of global storage.
pub const GLOBAL_STORAGE_FEATURE: u32 = 1;

/// The functions of global storage, numbered from 1.
#[derive(Clone, Copy, Debug, PartialEq, Eq, Structural)]
pub enum GlobalStorageFunctions {
    StoreState,
    LoadState,
    KeyExists,
}

impl GlobalStorageFunctions {
    /// The function that a number stands for, if any.
    pub open spec fn spec_from_u32(function: u32) -> Option<GlobalStorageFunctions> {
        if function == 1 {
            Some(GlobalStorageFunctions::StoreState)
        } else if function == 2 {
            Some(GlobalStorageFunctions::LoadState)
        } else if function == 3 {
            Some(GlobalStorageFunctions::KeyExists)
        } else {
            None
        }
    }

    /// The function that a number stands for, if any.
    #[verifier::when_used_as_spec(spec_from_u32)]
    pub fn from_u32(function: u32) -> (f: Option<GlobalStorageFunctions>)
        ensures
            f == GlobalStorageFunctions::spec_from_u32(function),
    {
        match function {
            1 => Some(GlobalStorageFunctions::StoreState),
            2 => Some(GlobalStorageFunctions::LoadState),
            3 => Some(GlobalStorageFunctions::KeyExists),
            _ => None,
        }
    }
}

/// What a feature interface answers once one of its functions has run: the
/// pair is claimed, or the function's error is handed on.
pub open spec fn claimed(result: Result<(), NeutronError>) -> Result<bool, NeutronError> {
    match result {
        Ok(_) => Ok(true),
        Err(e) => Err(e),
    }
}

/// Computes `claimed`.
pub fn claim(result: Result<(), NeutronError>) -> (r: Result<bool, NeutronError>)
    ensures
        r == claimed(result),
{
    match result {
        Ok(_) => Ok(true),
        Err(e) => Err(e),
    }
}

/// The storage feature of a call system.
///
/// An implementation says what its functions do by the relation `runs`. One
/// that says nothing leaves it as it is here: anything may happen.
pub trait GlobalStorage: Sized {
    /// Whether running `f` may lead from `before` and `stack` to `after`
    /// and `stack_after` and return `r`.
    open spec fn runs(
        before: &Self,
        after: &Self,
        stack: CallStackView,
        stack_after: CallStackView,
        f: GlobalStorageFunctions,
        r: Result<(), NeutronError>,
    ) -> bool {
        true
    }

    /// Runs the function if `feature` is that of global storage.
    ///
    /// For another feature it returns `Ok(false)`, so that the next
    /// interface is tried; for a function other than 1 to 3 it fails with
    /// `InvalidSystemFunction`. Neither runs a function nor touches the
    /// interface or the call stack. Else the function runs once, on the
    /// call stack as it came, and what it returns is answered: `Ok(true)`
    /// for `Ok`, and its error.
    fn try_syscall<S: GasSchedule>(
        &mut self,
        stack: &mut ContractCallStack<S>,
        feature: u32,
        function: u32,
    ) -> (r: Result<bool, NeutronError>)
        ensures
            feature != GLOBAL_STORAGE_FEATURE ==> {
                &&& r == Ok::<bool, NeutronError>(false)
                &&& final(stack)@ == old(stack)@
                &&& *final(self) == *old(self)
            },
            feature == GLOBAL_STORAGE_FEATURE && GlobalStorageFunctions::spec_from_u32(function)
                is None ==> {
                &&& r == Err::<bool, NeutronError>(
                    NeutronError::Recoverable(RecoverableError::InvalidSystemFunction),
                )
                &&& final(stack)@ == old(stack)@
                &&& *final(self) == *old(self)
            },
            feature == GLOBAL_STORAGE_FEATURE ==> (GlobalStorageFunctions::spec_from_u32(function)
                matches Some(f) ==> exists|ran: Result<(), NeutronError>|
                #[trigger] Self::runs(
                    old(self),
                    final(self),
                    old(stack)@,
                    final(stack)@,
                    f,
                    ran,
                ) && r == claimed(ran)),
    {
        if feature != GLOBAL_STORAGE_FEATURE {
            return Ok(false);
        }
        match GlobalStorageFunctions::from_u32(function) {
            None => Err(NeutronError::Recoverable(RecoverableError::InvalidSystemFunction)),
            Some(GlobalStorageFunctions::KeyExists) => claim(self.key_exists(stack)),
            Some(GlobalStorageFunctions::LoadState) => claim(self.load_state(stack)),
            Some(GlobalStorageFunctions::StoreState) => claim(self.store_state(stack)),
        }
    }

    /// Pops a key, then a value, and stores the value under the key.
    fn store_state<S: GasSchedule>(&mut self, stack: &mut ContractCallStack<S>) -> (r: Result<
        (),
        NeutronError,
    >)
        ensures
            Self::runs(
                old(self),
                final(self),
                old(stack)@,
                final(stack)@,
                GlobalStorageFunctions::StoreState,
                r,
            ),
    ;

    /// Pops a key and pushes the value stored under it.
    fn load_state<S: GasSchedule>(&mut self, stack: &mut ContractCallStack<S>) -> (r: Result<
        (),
        NeutronError,
    >)
        ensures
            Self::runs(
                old(self),
                final(self),
                old(stack)@,
                final(stack)@,
                GlobalStorageFunctions::LoadState,
                r,
            ),
    ;

    /// Reserved.
    fn key_exists<S: GasSchedule>(&mut self, stack: &mut ContractCallStack<S>) -> (r: Result<
        (),
        NeutronError,
    >)
        ensures
            Self::runs(
                old(self),
                final(self),
                old(stack)@,
                final(stack)@,
                GlobalStorageFunctions::KeyExists,
                r,
            ),
    ;
}

} // verus!
