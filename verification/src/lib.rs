//! Execution host for smart contracts: the contract call stack, the
//! checkpointed state store, gas accounting, system-call dispatch and the
//! hypervisor that ties a virtual x86 CPU to them.

pub mod addressing;
pub mod bytes;
pub mod callstack;
pub mod db;
pub mod definition;
pub mod hypervisor;
pub mod interface;
pub mod neutronerror;
pub mod syscall_interfaces;
pub mod testbench;
