use neutron_host::addressing::NeutronAddress;
use neutron_host::callstack::ContractCallStack;
use neutron_host::db::NeutronDB;
use neutron_host::db::NEUTRONDB_USER_SPACE;
use neutron_host::hypervisor::VmExit;
use neutron_host::hypervisor::X86Interface;
use neutron_host::interface::CallSystem;
use neutron_host::interface::NeutronVMResult;
use neutron_host::neutronerror::NeutronError;
use neutron_host::neutronerror::RecoverableError;
use neutron_host::neutronerror::UnrecoverableError;
use neutron_host::syscall_interfaces::logging::compile_log_message;
use neutron_host::syscall_interfaces::logging::LoggingFunctions;
use neutron_host::syscall_interfaces::logging::LoggingInterface;
use neutron_host::syscall_interfaces::logging::LOGGING_FEATURE;
use neutron_host::syscall_interfaces::storage::GlobalStorage;
use neutron_host::syscall_interfaces::storage::GlobalStorageFunctions;
use neutron_host::syscall_interfaces::storage::GLOBAL_STORAGE_FEATURE;
use neutron_host::testbench::LogLevel;
use neutron_host::testbench::Testbench;

fn contract() -> NeutronAddress {
    NeutronAddress { version: 2, data: vec![1, 2, 3] }
}

fn call_stack() -> ContractCallStack {
    let mut stack = ContractCallStack::default();
    stack.create_top_level_call(contract(), NeutronAddress::default(), 1000, 0);
    stack
}

#[test]
fn testbench_it_works() {
    assert_eq!(2 + 2, 4);
}

#[test]
fn store_then_load_state() {
    let mut bench = Testbench::default();
    let mut stack = call_stack();
    bench.begin_top_context(&stack).unwrap();
    stack.push_sccs(&[8, 8, 8, 8]).unwrap(); // value
    stack.push_sccs(&[1]).unwrap(); // key
    assert_eq!(bench.system_call(&mut stack, 1, 1), Ok(0));
    assert_eq!(stack.sccs_item_count(), Ok(0));
    stack.push_sccs(&[1]).unwrap();
    assert_eq!(bench.system_call(&mut stack, 1, 2), Ok(0));
    assert_eq!(stack.pop_sccs().unwrap(), vec![8, 8, 8, 8]);
    // the value is kept in the user space of the contract's short address
    let short = contract().to_short_address();
    assert_eq!(
        bench.db.read_key(&mut stack, &short, &[NEUTRONDB_USER_SPACE, 1]).unwrap(),
        vec![8, 8, 8, 8]
    );
    assert_eq!(bench.read_state_key(&mut stack, 0x5F, &[1]).unwrap(), vec![8, 8, 8, 8]);
}

#[test]
fn load_of_missing_state_fails() {
    let mut bench = Testbench::default();
    let mut stack = call_stack();
    bench.begin_top_context(&stack).unwrap();
    stack.push_sccs(&[1]).unwrap();
    assert_eq!(
        bench.system_call(&mut stack, GLOBAL_STORAGE_FEATURE, 2),
        Err(NeutronError::Unrecoverable(UnrecoverableError::StateOutOfRent))
    );
    assert_eq!(
        bench.system_call(&mut stack, GLOBAL_STORAGE_FEATURE, 2),
        Err(NeutronError::Recoverable(RecoverableError::StackIndexDoesntExist))
    );
}

#[test]
fn unknown_functions_and_features() {
    let mut bench = Testbench::default();
    let mut stack = call_stack();
    assert_eq!(
        bench.system_call(&mut stack, GLOBAL_STORAGE_FEATURE, 4),
        Err(NeutronError::Recoverable(RecoverableError::InvalidSystemFunction))
    );
    assert_eq!(
        bench.system_call(&mut stack, LOGGING_FEATURE, 5),
        Err(NeutronError::Recoverable(RecoverableError::InvalidSystemFunction))
    );
    assert_eq!(
        bench.system_call(&mut stack, GLOBAL_STORAGE_FEATURE, 3),
        Err(NeutronError::Unrecoverable(UnrecoverableError::NotImplemented))
    );
    assert_eq!(
        bench.system_call(&mut stack, GLOBAL_STORAGE_FEATURE, 0),
        Err(NeutronError::Recoverable(RecoverableError::InvalidSystemFunction))
    );
    assert_eq!(
        bench.system_call(&mut stack, LOGGING_FEATURE, 0),
        Err(NeutronError::Recoverable(RecoverableError::InvalidSystemFunction))
    );
    assert_eq!(bench.system_call(&mut stack, 3, 1), Ok(0));
    assert_eq!(GlobalStorage::try_syscall(&mut bench, &mut stack, 2, 1), Ok(false));
    assert_eq!(
        GlobalStorage::try_syscall(&mut bench, &mut stack, 1, 0),
        Err(NeutronError::Recoverable(RecoverableError::InvalidSystemFunction))
    );
    assert_eq!(LoggingInterface::try_syscall(&mut bench, &mut stack, 1, 1), Ok(false));
    assert_eq!(
        LoggingInterface::try_syscall(&mut bench, &mut stack, 2, 0),
        Err(NeutronError::Recoverable(RecoverableError::InvalidSystemFunction))
    );
    assert_eq!(GlobalStorageFunctions::from_u32(0), None);
    assert_eq!(LoggingFunctions::from_u32(0), None);
    assert_eq!(bench.block_height(), Ok(1));
    assert_eq!(GlobalStorageFunctions::from_u32(2), Some(GlobalStorageFunctions::LoadState));
    assert_eq!(GlobalStorageFunctions::from_u32(4), None);
    assert_eq!(LoggingFunctions::from_u32(4), Some(LoggingFunctions::LogError));
    assert_eq!(LoggingFunctions::from_u32(5), None);
}

#[test]
fn log_message_is_in_the_order_the_guest_meant() {
    let mut bench = Testbench::default();
    let mut stack = call_stack();
    // the fragments are pushed from the first to the last, then their number
    stack.push_sccs(b"hello").unwrap();
    stack.push_sccs(b"world").unwrap();
    stack.push_sccs(&[2]).unwrap();
    assert_eq!(bench.system_call(&mut stack, LOGGING_FEATURE, 2), Ok(0));
    assert_eq!(bench.log.len(), 1);
    assert_eq!(bench.log[0].level, LogLevel::Info);
    assert_eq!(bench.log[0].message, "helloworld");
    assert_eq!(stack.sccs_item_count(), Ok(0));
    // the fragment that is popped first ends the message
    stack.push_sccs(b"world").unwrap();
    stack.push_sccs(b"hello").unwrap();
    stack.push_sccs(&[2]).unwrap();
    assert_eq!(bench.system_call(&mut stack, LOGGING_FEATURE, 2), Ok(0));
    assert_eq!(bench.log[1].message, "worldhello");
}

#[test]
fn log_levels_of_the_functions() {
    let mut bench = Testbench::default();
    let mut stack = call_stack();
    for function in 1..=4u32 {
        stack.push_sccs(b"x").unwrap();
        stack.push_sccs(&[1]).unwrap();
        assert_eq!(bench.system_call(&mut stack, LOGGING_FEATURE, function), Ok(0));
    }
    let levels: Vec<LogLevel> = bench.log.iter().map(|r| r.level).collect();
    assert_eq!(levels, vec![LogLevel::Debug, LogLevel::Info, LogLevel::Warning, LogLevel::Error]);
    CallSystem::log_warning(&mut bench, "by hand");
    assert_eq!(bench.log[4].level, LogLevel::Warning);
    assert_eq!(bench.log[4].message, "by hand");
}

#[test]
fn log_count_must_be_one_byte() {
    let mut stack = call_stack();
    stack.push_sccs(&[]).unwrap();
    assert_eq!(
        compile_log_message(&mut stack),
        Err(NeutronError::Recoverable(RecoverableError::StackItemTooSmall))
    );
    stack.push_sccs(&[1, 0]).unwrap();
    assert_eq!(
        compile_log_message(&mut stack),
        Err(NeutronError::Recoverable(RecoverableError::StackItemTooLarge))
    );
    assert_eq!(
        compile_log_message(&mut stack),
        Err(NeutronError::Recoverable(RecoverableError::StackIndexDoesntExist))
    );
    stack.push_sccs(b"only").unwrap();
    stack.push_sccs(&[2]).unwrap();
    assert_eq!(
        compile_log_message(&mut stack),
        Err(NeutronError::Recoverable(RecoverableError::StackIndexDoesntExist))
    );
    stack.push_sccs(&[0]).unwrap();
    assert_eq!(compile_log_message(&mut stack), Ok(String::new()));
}

#[test]
fn log_text_is_decoded_lossily() {
    let mut stack = call_stack();
    stack.push_sccs(&[0x61]).unwrap();
    stack.push_sccs(&[0x62, 0xFF]).unwrap();
    stack.push_sccs(&[2]).unwrap();
    assert_eq!(compile_log_message(&mut stack), Ok("ab\u{FFFD}".to_string()));
}

#[test]
fn state_keys_need_a_context() {
    let mut bench = Testbench::default();
    let mut stack = ContractCallStack::default();
    bench.db.checkpoint().unwrap();
    assert_eq!(
        bench.write_state_key(&mut stack, 2, &[1, 0], &[1]),
        Err(NeutronError::Unrecoverable(UnrecoverableError::ContextIndexEmpty))
    );
    assert_eq!(
        bench.read_state_key(&mut stack, 2, &[1, 0]),
        Err(NeutronError::Unrecoverable(UnrecoverableError::ContextIndexEmpty))
    );
    assert_eq!(
        bench.begin_top_context(&stack),
        Err(NeutronError::Unrecoverable(UnrecoverableError::ContextIndexEmpty))
    );
}

#[test]
fn top_context_commits_on_success_and_clears_on_error() {
    let mut bench = Testbench::default();
    let mut stack = call_stack();
    bench.begin_top_context(&stack).unwrap();
    bench.write_state_key(&mut stack, 2, &[1, 0], &[0xC3]).unwrap();
    let result = NeutronVMResult::default();
    assert_eq!(bench.finish_top_context(Ok(result)), Ok(result));
    assert!(bench.db.revert_checkpoint().is_err());
    assert_eq!(bench.read_state_key(&mut stack, 2, &[1, 0]).unwrap(), vec![0xC3]);
    bench.begin_top_context(&stack).unwrap();
    bench.write_state_key(&mut stack, 2, &[1, 0], &[0x90]).unwrap();
    let error = NeutronError::Recoverable(RecoverableError::ContractSignaledError);
    assert_eq!(bench.finish_top_context(Err(error)), Err(error));
    assert!(bench.db.revert_checkpoint().is_err());
    assert_eq!(bench.read_state_key(&mut stack, 2, &[1, 0]).unwrap(), vec![0xC3]);
}

#[test]
fn unknown_vm_is_refused() {
    let mut bench = Testbench::default();
    let mut stack = ContractCallStack::default();
    stack.create_top_level_call(
        NeutronAddress { version: 3, data: vec![1] },
        NeutronAddress::default(),
        1000,
        0,
    );
    assert_eq!(
        bench.begin_top_context(&stack),
        Err(NeutronError::Unrecoverable(UnrecoverableError::UnknownVM))
    );
    assert!(bench.db.revert_checkpoint().is_err());
}

#[test]
fn staged_image_is_what_deploy_takes() {
    let mut stack = ContractCallStack::default();
    stack.create_top_level_deploy(contract(), NeutronAddress::default(), 1000, 0);
    assert_eq!(
        Testbench::stage_image(&mut stack, 0x10000, &[0xC3], 0x8002_0000, &[5, 6]),
        Ok(())
    );
    assert_eq!(stack.peek_sccs(0).unwrap(), vec![2, 0, 0, 0]);
    assert_eq!(stack.peek_sccs(1).unwrap(), vec![1, 1]);
    assert_eq!(stack.peek_sccs(2).unwrap(), vec![0xC3]);
    assert_eq!(stack.peek_sccs(3).unwrap(), vec![5, 6]);
    let mut bench = Testbench::default();
    let mut hv = X86Interface::new();
    bench.begin_top_context(&stack).unwrap();
    let setup = hv.prepare_execution(&mut bench, &mut stack).unwrap();
    assert_eq!(setup.code, vec![0xC3]);
    assert_eq!(setup.data, vec![5, 6]);
    let exit = VmExit { crashed: false, eax: 0, gas_remaining: 900 };
    let result = hv.finish_execution(&mut bench, &mut stack, exit);
    let result = bench.finish_top_context(result).unwrap();
    assert_eq!(result.error_code, 0);
    assert_eq!(result.gas_used, 100);
    // the contract can now be called, twice
    for _ in 0..2 {
        let mut stack = call_stack();
        let mut hv = X86Interface::new();
        bench.begin_top_context(&stack).unwrap();
        let setup = hv.prepare_execution(&mut bench, &mut stack).unwrap();
        assert_eq!(setup.code, vec![0xC3]);
        let result = hv.finish_execution(&mut bench, &mut stack, exit);
        assert_eq!(bench.finish_top_context(result).unwrap().error_code, 0);
    }
    // another address has no contract
    let mut stack = ContractCallStack::default();
    let mut other = NeutronAddress::new_random_address();
    other.version = 2;
    stack.create_top_level_call(other, NeutronAddress::default(), 1000, 0);
    let mut hv = X86Interface::new();
    bench.begin_top_context(&stack).unwrap();
    let prepared = hv.prepare_execution(&mut bench, &mut stack);
    assert!(prepared.is_err());
    assert!(bench.finish_top_context(Err(prepared.unwrap_err())).is_err());
}

#[test]
fn image_at_wrong_address_is_refused() {
    let mut stack = ContractCallStack::default();
    stack.create_top_level_deploy(contract(), NeutronAddress::default(), 1000, 0);
    assert_eq!(
        Testbench::stage_image(&mut stack, 0x20000, &[0xC3], 0x8002_0000, &[5, 6]),
        Err(NeutronError::Unrecoverable(UnrecoverableError::ErrorInitializingVM))
    );
    assert_eq!(
        Testbench::stage_image(&mut stack, 0x10000, &[0xC3], 0x8003_0000, &[5, 6]),
        Err(NeutronError::Unrecoverable(UnrecoverableError::ErrorInitializingVM))
    );
    assert_eq!(stack.sccs_item_count(), Ok(0));
}

#[test]
fn try_syscall_runs_the_function_of_the_number() {
    let mut bench = Testbench::default();
    let mut stack = call_stack();
    bench.begin_top_context(&stack).unwrap();
    stack.push_sccs(&[7, 7]).unwrap(); // value
    stack.push_sccs(&[3]).unwrap(); // key
    assert_eq!(GlobalStorage::try_syscall(&mut bench, &mut stack, 1, 1), Ok(true));
    assert_eq!(bench.read_state_key(&mut stack, NEUTRONDB_USER_SPACE, &[3]).unwrap(), vec![7, 7]);
    stack.push_sccs(&[3]).unwrap();
    assert_eq!(GlobalStorage::try_syscall(&mut bench, &mut stack, 1, 2), Ok(true));
    assert_eq!(stack.pop_sccs().unwrap(), vec![7, 7]);
    stack.push_sccs(b"msg").unwrap();
    stack.push_sccs(&[1]).unwrap();
    assert_eq!(LoggingInterface::try_syscall(&mut bench, &mut stack, 2, 3), Ok(true));
    assert_eq!(bench.log.len(), 1);
    assert_eq!(bench.log[0].level, LogLevel::Warning);
    assert_eq!(bench.log[0].message, "msg");
    assert_eq!(
        LoggingInterface::try_syscall(&mut bench, &mut stack, 2, 2),
        Err(NeutronError::Recoverable(RecoverableError::StackIndexDoesntExist))
    );
    assert_eq!(bench.log.len(), 1);
    assert_eq!(LoggingFunctions::LogInfo.level(), LogLevel::Info);
}
