use neutron_host::addressing::NeutronAddress;
use neutron_host::callstack::add_gas;
use neutron_host::callstack::mul_gas;
use neutron_host::callstack::sub_gas;
use neutron_host::callstack::BlankSchedule;
use neutron_host::callstack::CallStackCost;
use neutron_host::callstack::ContractCallStack;
use neutron_host::callstack::CostTable;
use neutron_host::callstack::GasSchedule;
use neutron_host::callstack::INTERNAL_BUILT_IN_FEATURE;
use neutron_host::interface::ExecutionContext;
use neutron_host::interface::ExecutionType;
use neutron_host::neutronerror::NeutronError;
use neutron_host::neutronerror::RecoverableError;
use neutron_host::neutronerror::UnrecoverableError;

fn address(version: u32, byte: u8) -> NeutronAddress {
    NeutronAddress { version, data: vec![byte; 4] }
}

fn priced_stack() -> ContractCallStack<CostTable> {
    let mut table = CostTable::new();
    table.set_cost(INTERNAL_BUILT_IN_FEATURE, CallStackCost::WriteByte.id(), 2);
    table.set_cost(INTERNAL_BUILT_IN_FEATURE, CallStackCost::ReadByte.id(), 3);
    table.set_cost(INTERNAL_BUILT_IN_FEATURE, CallStackCost::ClearByteRefund.id(), 1);
    let mut stack = ContractCallStack::new_with_schedule(table);
    stack.set_gas_remaining(1000);
    stack
}

#[test]
fn pop_after_push_yields_item() {
    let mut stack = ContractCallStack::default();
    stack.push_sccs(&[1, 2, 3]).unwrap();
    assert_eq!(stack.pop_sccs().unwrap(), vec![1, 2, 3]);
    assert_eq!(stack.sccs_item_count(), Ok(0));
}

#[test]
fn pop_after_two_pushes_leaves_first() {
    let mut stack = ContractCallStack::default();
    stack.push_sccs(&[1]).unwrap();
    stack.push_sccs(&[2, 2]).unwrap();
    assert_eq!(stack.pop_sccs().unwrap(), vec![2, 2]);
    assert_eq!(stack.peek_sccs(0).unwrap(), vec![1]);
    assert_eq!(stack.sccs_item_count(), Ok(1));
}

#[test]
fn peek_sees_what_pop_returns_after_drops() {
    let mut stack = ContractCallStack::default();
    stack.push_sccs(&[1]).unwrap();
    stack.push_sccs(&[2]).unwrap();
    stack.push_sccs(&[3]).unwrap();
    let seen = stack.peek_sccs(2).unwrap();
    assert_eq!(stack.sccs_item_count(), Ok(3));
    stack.drop_sccs().unwrap();
    stack.drop_sccs().unwrap();
    assert_eq!(stack.pop_sccs().unwrap(), seen);
    assert_eq!(seen, vec![1]);
}

#[test]
fn push_of_largest_item_succeeds() {
    let mut stack = ContractCallStack::default();
    let data = vec![7u8; 65_535];
    assert_eq!(stack.push_sccs(&data), Ok(()));
    assert_eq!(stack.pop_sccs().unwrap().len(), 65_535);
}

#[test]
fn push_of_too_large_item_fails() {
    let mut stack = ContractCallStack::default();
    let data = vec![7u8; 65_536];
    assert_eq!(
        stack.push_sccs(&data),
        Err(NeutronError::Recoverable(RecoverableError::StackItemTooLarge))
    );
    assert_eq!(stack.sccs_item_count(), Ok(0));
}

#[test]
fn pop_and_drop_on_empty_sccs_fail() {
    let mut stack = ContractCallStack::default();
    assert_eq!(
        stack.pop_sccs(),
        Err(NeutronError::Recoverable(RecoverableError::StackIndexDoesntExist))
    );
    assert_eq!(
        stack.drop_sccs(),
        Err(NeutronError::Recoverable(RecoverableError::StackIndexDoesntExist))
    );
}

#[test]
fn peek_at_size_fails() {
    let mut stack = ContractCallStack::default();
    stack.push_sccs(&[1]).unwrap();
    stack.push_sccs(&[2]).unwrap();
    assert_eq!(
        stack.peek_sccs(2),
        Err(NeutronError::Recoverable(RecoverableError::StackIndexDoesntExist))
    );
    assert_eq!(stack.peek_sccs(1).unwrap(), vec![1]);
}

#[test]
fn charges_of_sccs_operations() {
    let mut stack = priced_stack();
    stack.push_sccs(&[0; 5]).unwrap();
    assert_eq!(stack.pending_gas(), 10);
    stack.peek_sccs(0).unwrap();
    assert_eq!(stack.pending_gas(), 25);
    // pop: 3 * 5 - 1 * 5
    stack.pop_sccs().unwrap();
    assert_eq!(stack.pending_gas(), 35);
    stack.push_sccs(&[0; 4]).unwrap();
    assert_eq!(stack.pending_gas(), 43);
    // drop: a refund of 1 * 4
    stack.drop_sccs().unwrap();
    assert_eq!(stack.pending_gas(), 39);
}

#[test]
fn charge_fails_when_pending_exceeds_remaining() {
    let mut stack = ContractCallStack::default();
    stack.set_gas_remaining(10);
    assert_eq!(stack.charge_gas(10), Ok(()));
    assert_eq!(
        stack.charge_gas(1),
        Err(NeutronError::Recoverable(RecoverableError::OutOfGas))
    );
    assert_eq!(stack.pending_gas(), 11);
    assert_eq!(stack.charge_gas(-1), Ok(()));
    assert_eq!(stack.pending_gas(), 10);
    assert_eq!(stack.gas_remaining(), 10);
}

#[test]
fn push_out_of_gas_pushes_nothing() {
    let mut stack = priced_stack();
    stack.set_gas_remaining(9);
    assert_eq!(
        stack.push_sccs(&[0; 5]),
        Err(NeutronError::Recoverable(RecoverableError::OutOfGas))
    );
    assert_eq!(stack.sccs_item_count(), Ok(0));
    assert_eq!(stack.pending_gas(), 10);
}

#[test]
fn disabled_system_charges_cost_nothing() {
    let mut stack = priced_stack();
    assert_eq!(stack.gas_cost(INTERNAL_BUILT_IN_FEATURE, 1), 2);
    stack.disable_system_charges();
    assert_eq!(stack.gas_cost(INTERNAL_BUILT_IN_FEATURE, 1), 0);
    stack.push_sccs(&[0; 5]).unwrap();
    assert_eq!(stack.pending_gas(), 0);
    stack.enable_system_charges();
    assert_eq!(stack.gas_cost(INTERNAL_BUILT_IN_FEATURE, 1), 2);
}

#[test]
fn gas_arithmetic_saturates() {
    assert_eq!(mul_gas(3, 4), 12);
    assert_eq!(mul_gas(-3, 4), -12);
    assert_eq!(mul_gas(i64::MAX, 2), i64::MAX);
    assert_eq!(mul_gas(i64::MIN, 2), i64::MIN);
    assert_eq!(add_gas(i64::MAX, 1), i64::MAX);
    assert_eq!(add_gas(5, -7), -2);
    assert_eq!(sub_gas(i64::MIN, 1), i64::MIN);
    assert_eq!(sub_gas(5, 7), -2);
}

#[test]
fn schedules_give_costs() {
    assert_eq!(BlankSchedule {}.gas_cost(1, 1), 0);
    let mut table = CostTable::new();
    assert_eq!(table.gas_cost(1, 1), 0);
    table.set_cost(1, 1, 5);
    table.set_cost(1, 2, -3);
    table.set_cost(1, 1, 6);
    assert_eq!(table.gas_cost(1, 1), 6);
    assert_eq!(table.gas_cost(1, 2), -3);
    assert_eq!(table.gas_cost(2, 1), 0);
}

#[test]
fn stack_hands_out_its_schedule() {
    let stack = priced_stack();
    assert_eq!(stack.gas_schedule().gas_cost(INTERNAL_BUILT_IN_FEATURE, 2), 3);
}

#[test]
fn cost_identifiers() {
    assert_eq!(CallStackCost::WriteByte.id(), 1);
    assert_eq!(CallStackCost::ReadByte.id(), 2);
    assert_eq!(CallStackCost::ClearByteRefund.id(), 3);
    assert_eq!(CallStackCost::CopyDataToVM.id(), 4);
    assert_eq!(CallStackCost::CopyDataFromVM.id(), 5);
}

#[test]
fn contexts_push_pop_peek() {
    let mut stack = ContractCallStack::default();
    assert_eq!(stack.context_count(), Ok(0));
    assert_eq!(
        stack.pop_context(),
        Err(NeutronError::Unrecoverable(UnrecoverableError::ContextIndexEmpty))
    );
    assert!(matches!(
        stack.peek_context(0),
        Err(NeutronError::Recoverable(RecoverableError::StackIndexDoesntExist))
    ));
    let mut c = ExecutionContext::default();
    c.gas_limit = 5;
    stack.push_context(c).unwrap();
    let mut d = ExecutionContext::default();
    d.gas_limit = 6;
    stack.push_context(d).unwrap();
    assert_eq!(stack.context_count(), Ok(2));
    assert_eq!(stack.current_context().gas_limit, 6);
    assert_eq!(stack.peek_context(1).unwrap().gas_limit, 5);
    assert_eq!(stack.pop_context().unwrap().gas_limit, 6);
    assert_eq!(stack.current_context().gas_limit, 5);
}

#[test]
fn top_level_and_nested_contexts() {
    let mut stack = ContractCallStack::default();
    stack.create_top_level_call(address(2, 1), address(0, 9), 100, 7);
    {
        let top = stack.current_context();
        assert_eq!(top.self_address, address(2, 1));
        assert_eq!(top.sender, address(0, 9));
        assert_eq!(top.origin, address(0, 9));
        assert_eq!(top.gas_limit, 100);
        assert_eq!(top.value_sent, 7);
        assert_eq!(top.execution_type, ExecutionType::Call);
    }
    stack.create_call(address(2, 2), 50, 1);
    stack.create_deploy(address(2, 3), 25, 0);
    let inner = stack.current_context();
    assert_eq!(inner.self_address, address(2, 3));
    assert_eq!(inner.sender, address(2, 2));
    assert_eq!(inner.origin, address(0, 9));
    assert_eq!(inner.execution_type, ExecutionType::Deploy);
    let middle = stack.peek_context(1).unwrap();
    assert_eq!(middle.sender, address(2, 1));
    assert_eq!(middle.origin, address(0, 9));
    assert_eq!(middle.execution_type, ExecutionType::Call);
}

#[test]
fn top_level_deploy_context() {
    let mut stack = ContractCallStack::default();
    stack.create_top_level_deploy(address(2, 1), address(0, 9), 100, 0);
    assert_eq!(stack.current_context().execution_type, ExecutionType::Deploy);
    assert_eq!(stack.context_count(), Ok(1));
}
