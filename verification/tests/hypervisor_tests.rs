use neutron_host::addressing::NeutronAddress;
use neutron_host::callstack::CallStackCost;
use neutron_host::callstack::ContractCallStack;
use neutron_host::callstack::CostTable;
use neutron_host::callstack::GasSchedule;
use neutron_host::callstack::INTERNAL_BUILT_IN_FEATURE;
use neutron_host::hypervisor::guest_write_done;
use neutron_host::hypervisor::judge_run;
use neutron_host::hypervisor::push_from_guest;
use neutron_host::hypervisor::settle_gas;
use neutron_host::hypervisor::translate_interrupt_result;
use neutron_host::hypervisor::GuestRegisters;
use neutron_host::hypervisor::InterruptOutcome;
use neutron_host::hypervisor::InterruptStep;
use neutron_host::hypervisor::InterruptVerdict;
use neutron_host::hypervisor::StackInterrupt;
use neutron_host::hypervisor::VmExit;
use neutron_host::hypervisor::X86Interface;
use neutron_host::hypervisor::EXECUTION_TYPE_INTERRUPT;
use neutron_host::hypervisor::EXIT_INTERRUPT;
use neutron_host::hypervisor::REVERT_INTERRUPT;
use neutron_host::hypervisor::SYSTEM_CALL_INTERRUPT;
use neutron_host::interface::CallSystem;
use neutron_host::interface::ExecutionType;
use neutron_host::interface::NeutronVMResult;
use neutron_host::neutronerror::NeutronError;
use neutron_host::neutronerror::RecoverableError;
use neutron_host::neutronerror::UnrecoverableError;

struct DummyCallSystem {
    answer: Result<u32, NeutronError>,
    stored: Vec<(u8, Vec<u8>, Vec<u8>)>,
    calls: Vec<(u32, u32)>,
    log: Vec<String>,
}

impl DummyCallSystem {
    fn new() -> DummyCallSystem {
        DummyCallSystem {
            answer: Err(NeutronError::Unrecoverable(UnrecoverableError::NotImplemented)),
            stored: vec![],
            calls: vec![],
            log: vec![],
        }
    }
}

impl CallSystem for DummyCallSystem {
    fn system_call<S: GasSchedule>(
        &mut self,
        _stack: &mut ContractCallStack<S>,
        feature: u32,
        function: u32,
    ) -> Result<u32, NeutronError> {
        self.calls.push((feature, function));
        self.answer
    }

    fn block_height(&self) -> Result<u32, NeutronError> {
        Err(NeutronError::Unrecoverable(UnrecoverableError::NotImplemented))
    }

    fn read_state_key<S: GasSchedule>(
        &mut self,
        _stack: &mut ContractCallStack<S>,
        space: u8,
        key: &[u8],
    ) -> Result<Vec<u8>, NeutronError> {
        for (s, k, v) in self.stored.iter() {
            if *s == space && k.as_slice() == key {
                return Ok(v.clone());
            }
        }
        Err(NeutronError::Unrecoverable(UnrecoverableError::NotImplemented))
    }

    fn write_state_key<S: GasSchedule>(
        &mut self,
        _stack: &mut ContractCallStack<S>,
        space: u8,
        key: &[u8],
        value: &[u8],
    ) -> Result<(), NeutronError> {
        self.stored.push((space, key.to_vec(), value.to_vec()));
        Ok(())
    }

    fn log_error(&mut self, msg: &str) {
        self.log.push(format!("Error: {}", msg));
    }

    fn log_warning(&mut self, msg: &str) {
        self.log.push(format!("Warning: {}", msg));
    }

    fn log_info(&mut self, msg: &str) {
        self.log.push(format!("Info: {}", msg));
    }

    fn log_debug(&mut self, msg: &str) {
        self.log.push(format!("Debug: {}", msg));
    }
}

/// A guest with three registers and one region of memory.
struct Guest {
    eax: u32,
    ecx: u32,
    edx: u32,
    gas_remaining: u64,
    base: u32,
    memory: Vec<u8>,
}

impl Guest {
    fn new() -> Guest {
        Guest { eax: 0, ecx: 0, edx: 0, gas_remaining: 0, base: 0x8000_0000, memory: vec![0; 0x100] }
    }

    fn range(&self, address: u32, size: usize) -> Option<(usize, usize)> {
        if address < self.base {
            return None;
        }
        let start = (address - self.base) as usize;
        if start + size > self.memory.len() {
            return None;
        }
        Some((start, start + size))
    }

    fn copy_from_memory(&self, address: u32, size: u32) -> Option<Vec<u8>> {
        let (start, end) = self.range(address, size as usize)?;
        Some(self.memory[start..end].to_vec())
    }

    fn copy_into_memory(&mut self, address: u32, data: &[u8]) -> bool {
        match self.range(address, data.len()) {
            Some((start, end)) => {
                self.memory[start..end].copy_from_slice(data);
                true
            }
            None => false,
        }
    }

    /// Raises an interrupt and performs what the hypervisor asks for.
    fn interrupt<S: GasSchedule>(
        &mut self,
        hv: &mut X86Interface,
        cs: &mut DummyCallSystem,
        stack: &mut ContractCallStack<S>,
        num: u8,
    ) -> InterruptVerdict {
        let registers = GuestRegisters { eax: self.eax, ecx: self.ecx, edx: self.edx };
        let outcome = match hv.interrupt(cs, stack, registers, self.gas_remaining, num) {
            InterruptStep::Done(outcome) => outcome,
            InterruptStep::ReadGuestMemory { address, size } => {
                let memory = self.copy_from_memory(address, size);
                push_from_guest(cs, stack, memory.as_deref())
            }
            InterruptStep::WriteGuestMemory { address, data, actual_size } => {
                let written = self.copy_into_memory(address, &data);
                guest_write_done(cs, stack, written, actual_size)
            }
        };
        if let Some(eax) = outcome.eax {
            self.eax = eax;
        }
        self.gas_remaining = outcome.gas_remaining;
        outcome.verdict
    }
}

fn priced_stack() -> ContractCallStack<CostTable> {
    let mut table = CostTable::new();
    table.set_cost(INTERNAL_BUILT_IN_FEATURE, CallStackCost::WriteByte.id(), 2);
    table.set_cost(INTERNAL_BUILT_IN_FEATURE, CallStackCost::ReadByte.id(), 3);
    table.set_cost(INTERNAL_BUILT_IN_FEATURE, CallStackCost::ClearByteRefund.id(), 1);
    table.set_cost(INTERNAL_BUILT_IN_FEATURE, CallStackCost::CopyDataToVM.id(), 10);
    table.set_cost(INTERNAL_BUILT_IN_FEATURE, CallStackCost::CopyDataFromVM.id(), 20);
    ContractCallStack::new_with_schedule(table)
}

#[test]
fn test_x86_sccs_push() {
    let mut stack = ContractCallStack::default();
    let mut cs = DummyCallSystem::new();
    {
        let mut hv = X86Interface::new();
        let mut vm = Guest::new();
        let address = 0x8000_0000;
        let item = vec![0, 1, 2, 3, 4];
        assert!(vm.copy_into_memory(address, &item));
        vm.eax = address;
        vm.ecx = 5;
        assert_eq!(
            vm.interrupt(&mut hv, &mut cs, &mut stack, StackInterrupt::Push.number()),
            InterruptVerdict::Resume
        );
        vm.eax = address;
        vm.ecx = 2;
        assert_eq!(
            vm.interrupt(&mut hv, &mut cs, &mut stack, StackInterrupt::Push.number()),
            InterruptVerdict::Resume
        );
    }
    assert_eq!(stack.sccs_item_count().unwrap(), 2);
    let item = stack.pop_sccs().unwrap();
    assert_eq!(item, vec![0, 1]);
    let item = stack.pop_sccs().unwrap();
    assert_eq!(item, vec![0, 1, 2, 3, 4]);
    assert_eq!(stack.sccs_item_count().unwrap(), 0);
}

#[test]
fn test_x86_sccs_pop() {
    let mut stack = ContractCallStack::default();
    let mut cs = DummyCallSystem::new();
    let item = vec![9, 1, 2, 3, 4];
    stack.push_sccs(&item).unwrap();
    stack.push_sccs(&item).unwrap();
    stack.push_sccs(&item[0..2]).unwrap();
    {
        let mut hv = X86Interface::new();
        let mut vm = Guest::new();
        let address = 0x8000_0000;
        vm.eax = address;
        vm.ecx = 5; //max_size
        assert_eq!(
            vm.interrupt(&mut hv, &mut cs, &mut stack, StackInterrupt::Pop.number()),
            InterruptVerdict::Resume
        );
        assert_eq!(vm.eax, 2, "VM got incorrect actual_size for SCCS item");
        let data = vm.copy_from_memory(address, 5).unwrap();
        assert_eq!(
            data.to_vec(),
            vec![9 as u8, 1, 0, 0, 0],
            "VM had incorrect data written into memory for SCCS item"
        );

        vm.eax = address + 0x10;
        vm.ecx = 2; //max_size
        assert_eq!(
            vm.interrupt(&mut hv, &mut cs, &mut stack, StackInterrupt::Pop.number()),
            InterruptVerdict::Resume
        );
        assert_eq!(vm.eax, 5, "VM got incorrect actual_size for SCCS item");
        let data = vm.copy_from_memory(address + 0x10, 5).unwrap();
        assert_eq!(
            data.to_vec(),
            vec![9 as u8, 1, 0, 0, 0],
            "VM had incorrect data written into memory for SCCS item"
        );

        vm.eax = address + 0x20;
        vm.ecx = 5; //max_size
        assert_eq!(
            vm.interrupt(&mut hv, &mut cs, &mut stack, StackInterrupt::Pop.number()),
            InterruptVerdict::Resume
        );
        assert_eq!(vm.eax, 5, "VM got incorrect actual_size for SCCS item");
        let data = vm.copy_from_memory(address + 0x20, 5).unwrap();
        assert_eq!(
            data.to_vec(),
            vec![9 as u8, 1, 2, 3, 4],
            "VM had incorrect data written into memory for SCCS item"
        );
    }
    assert_eq!(stack.sccs_item_count().unwrap(), 0);
}

#[test]
fn test_x86_sccs_drop() {
    let mut stack = ContractCallStack::default();
    let mut cs = DummyCallSystem::new();
    let item = vec![9, 1, 2, 3, 4];
    stack.push_sccs(&item).unwrap();
    {
        let mut hv = X86Interface::new();
        let mut vm = Guest::new();
        let address = 0; //null pointer
        vm.eax = address;
        vm.ecx = 0; //max_size (null)
        assert_eq!(
            vm.interrupt(&mut hv, &mut cs, &mut stack, StackInterrupt::Pop.number()),
            InterruptVerdict::Resume
        );
        assert_eq!(vm.eax, 5, "VM got incorrect actual_size for SCCS item");
    }
    assert_eq!(stack.sccs_item_count().unwrap(), 0);
}

#[test]
fn test_x86_sccs_peek() {
    let mut stack = ContractCallStack::default();
    let mut cs = DummyCallSystem::new();
    let item = vec![9, 1, 2, 3, 4];
    stack.push_sccs(&item).unwrap();
    stack.push_sccs(&item).unwrap();
    stack.push_sccs(&item[0..2]).unwrap();
    {
        let mut hv = X86Interface::new();
        let mut vm = Guest::new();
        let address = 0x8000_0000;
        vm.eax = address;
        vm.ecx = 5; //max_size
        vm.edx = 0; //index
        assert_eq!(
            vm.interrupt(&mut hv, &mut cs, &mut stack, StackInterrupt::Peek.number()),
            InterruptVerdict::Resume
        );
        assert_eq!(vm.eax, 2, "VM got incorrect actual_size for SCCS item");
        let data = vm.copy_from_memory(address, 5).unwrap();
        assert_eq!(
            data.to_vec(),
            vec![9 as u8, 1, 0, 0, 0],
            "VM had incorrect data written into memory for SCCS item"
        );

        vm.eax = address + 0x10;
        vm.ecx = 2; //max_size
        vm.edx = 1; //index
        assert_eq!(
            vm.interrupt(&mut hv, &mut cs, &mut stack, StackInterrupt::Peek.number()),
            InterruptVerdict::Resume
        );
        assert_eq!(vm.eax, 5, "VM got incorrect actual_size for SCCS item");
        let data = vm.copy_from_memory(address + 0x10, 5).unwrap();
        assert_eq!(
            data.to_vec(),
            vec![9 as u8, 1, 0, 0, 0],
            "VM had incorrect data written into memory for SCCS item"
        );

        vm.eax = address + 0x20;
        vm.ecx = 5; //max_size
        vm.edx = 2; //index
        assert_eq!(
            vm.interrupt(&mut hv, &mut cs, &mut stack, StackInterrupt::Peek.number()),
            InterruptVerdict::Resume
        );
        assert_eq!(vm.eax, 5, "VM got incorrect actual_size for SCCS item");
        let data = vm.copy_from_memory(address + 0x20, 5).unwrap();
        assert_eq!(
            data.to_vec(),
            vec![9 as u8, 1, 2, 3, 4],
            "VM had incorrect data written into memory for SCCS item"
        );

        //null buffer test
        vm.eax = 0;
        vm.ecx = 0; //max_size
        vm.edx = 2; //index
        assert_eq!(
            vm.interrupt(&mut hv, &mut cs, &mut stack, StackInterrupt::Peek.number()),
            InterruptVerdict::Resume
        );
        assert_eq!(vm.eax, 5, "VM got incorrect actual_size for SCCS item");
    }
    assert_eq!(stack.sccs_item_count().unwrap(), 3);
}

#[test]
fn push_then_pop_through_interrupts() {
    let mut stack = ContractCallStack::default();
    let mut cs = DummyCallSystem::new();
    let mut hv = X86Interface::new();
    let mut vm = Guest::new();
    let address = 0x8000_0000;
    assert!(vm.copy_into_memory(address, &[0, 1, 2, 3, 4]));
    vm.eax = address;
    vm.ecx = 5;
    assert_eq!(
        vm.interrupt(&mut hv, &mut cs, &mut stack, 0x10),
        InterruptVerdict::Resume
    );
    assert_eq!(vm.eax, 0);
    vm.eax = address;
    vm.ecx = 2;
    assert_eq!(
        vm.interrupt(&mut hv, &mut cs, &mut stack, 0x10),
        InterruptVerdict::Resume
    );
    assert_eq!(stack.peek_sccs(0).unwrap(), vec![0, 1]);
    assert_eq!(stack.peek_sccs(1).unwrap(), vec![0, 1, 2, 3, 4]);
    vm.memory = vec![0; 0x100];
    vm.eax = address;
    vm.ecx = 5;
    assert_eq!(
        vm.interrupt(&mut hv, &mut cs, &mut stack, 0x11),
        InterruptVerdict::Resume
    );
    assert_eq!(vm.eax, 2);
    assert_eq!(vm.copy_from_memory(address, 5).unwrap(), vec![0, 1, 0, 0, 0]);
    vm.memory = vec![0; 0x100];
    vm.eax = address;
    vm.ecx = 2;
    assert_eq!(
        vm.interrupt(&mut hv, &mut cs, &mut stack, 0x11),
        InterruptVerdict::Resume
    );
    assert_eq!(vm.eax, 5);
    assert_eq!(vm.copy_from_memory(address, 5).unwrap(), vec![0, 1, 0, 0, 0]);
}

#[test]
fn recoverable_error_goes_to_eax_and_guest_resumes() {
    let mut stack = ContractCallStack::default();
    let mut cs = DummyCallSystem::new();
    let mut hv = X86Interface::new();
    let mut vm = Guest::new();
    vm.gas_remaining = 77;
    vm.eax = 0x8000_0000;
    vm.ecx = 5;
    let verdict = vm.interrupt(&mut hv, &mut cs, &mut stack, StackInterrupt::Pop.number());
    assert_eq!(verdict, InterruptVerdict::Resume);
    assert_eq!(vm.eax, 0x8000_0001);
    assert_eq!(vm.gas_remaining, 77);
    // memory that the guest does not have
    vm.eax = 0x1000;
    vm.ecx = 5;
    let verdict = vm.interrupt(&mut hv, &mut cs, &mut stack, StackInterrupt::Push.number());
    assert_eq!(verdict, InterruptVerdict::Resume);
    assert_eq!(vm.eax, RecoverableError::ErrorCopyingFromVM.code());
    stack.push_sccs(&[1, 2, 3]).unwrap();
    vm.eax = 0x1000;
    vm.ecx = 3;
    let verdict = vm.interrupt(&mut hv, &mut cs, &mut stack, StackInterrupt::Pop.number());
    assert_eq!(verdict, InterruptVerdict::Resume);
    assert_eq!(vm.eax, RecoverableError::ErrorCopyingIntoVM.code());
}

#[test]
fn unrecoverable_error_halts_the_vm() {
    let mut stack = ContractCallStack::default();
    let mut cs = DummyCallSystem::new();
    let mut hv = X86Interface::new();
    let mut vm = Guest::new();
    vm.eax = 1;
    vm.ecx = 1;
    vm.gas_remaining = 10;
    let verdict = vm.interrupt(&mut hv, &mut cs, &mut stack, SYSTEM_CALL_INTERRUPT);
    assert_eq!(verdict, InterruptVerdict::SyscallError);
    assert_eq!(vm.eax, 1);
    // without a context the execution type cannot be told
    let verdict = vm.interrupt(&mut hv, &mut cs, &mut stack, EXECUTION_TYPE_INTERRUPT);
    assert_eq!(verdict, InterruptVerdict::SyscallError);
}

#[test]
fn system_call_value_and_error_reach_eax() {
    let mut stack = ContractCallStack::default();
    let mut cs = DummyCallSystem::new();
    let mut hv = X86Interface::new();
    let mut vm = Guest::new();
    cs.answer = Ok(42);
    vm.eax = 1;
    assert_eq!(
        vm.interrupt(&mut hv, &mut cs, &mut stack, SYSTEM_CALL_INTERRUPT),
        InterruptVerdict::Resume
    );
    assert_eq!(vm.eax, 42);
    cs.answer = Ok(0);
    assert_eq!(
        vm.interrupt(&mut hv, &mut cs, &mut stack, SYSTEM_CALL_INTERRUPT),
        InterruptVerdict::Resume
    );
    assert_eq!(vm.eax, 0);
    cs.answer = Err(NeutronError::Recoverable(RecoverableError::InvalidSystemFunction));
    assert_eq!(
        vm.interrupt(&mut hv, &mut cs, &mut stack, SYSTEM_CALL_INTERRUPT),
        InterruptVerdict::Resume
    );
    assert_eq!(vm.eax, 0x8000_0004);
    cs.answer = Err(NeutronError::Recoverable(RecoverableError::OutOfGas));
    vm.gas_remaining = 5;
    assert_eq!(
        vm.interrupt(&mut hv, &mut cs, &mut stack, SYSTEM_CALL_INTERRUPT),
        InterruptVerdict::OutOfGas
    );
    assert_eq!(vm.gas_remaining, 0);
}

#[test]
fn gas_of_interrupts_is_taken_from_the_vm() {
    let mut stack = priced_stack();
    let mut cs = DummyCallSystem::new();
    let mut hv = X86Interface::new();
    let mut vm = Guest::new();
    vm.gas_remaining = 1000;
    vm.eax = 0x8000_0000;
    vm.ecx = 5;
    // copy out of the VM 20 * 5, write 2 * 5
    assert_eq!(
        vm.interrupt(&mut hv, &mut cs, &mut stack, StackInterrupt::Push.number()),
        InterruptVerdict::Resume
    );
    assert_eq!(vm.gas_remaining, 890);
    assert_eq!(stack.pending_gas(), 0);
    assert_eq!(stack.gas_remaining(), 0);
    // peek: read 3 * 5, copy into the VM 10 * 2
    vm.eax = 0x8000_0000;
    vm.ecx = 2;
    vm.edx = 0;
    assert_eq!(
        vm.interrupt(&mut hv, &mut cs, &mut stack, StackInterrupt::Peek.number()),
        InterruptVerdict::Resume
    );
    assert_eq!(vm.gas_remaining, 855);
    // pop into a null buffer: read 3 * 5, refund 1 * 5, nothing copied
    vm.eax = 0;
    vm.ecx = 0;
    assert_eq!(
        vm.interrupt(&mut hv, &mut cs, &mut stack, StackInterrupt::Pop.number()),
        InterruptVerdict::Resume
    );
    assert_eq!(vm.gas_remaining, 845);
}

#[test]
fn out_of_gas_halts_the_vm_without_gas() {
    let mut stack = priced_stack();
    let mut cs = DummyCallSystem::new();
    let mut hv = X86Interface::new();
    let mut vm = Guest::new();
    vm.gas_remaining = 99;
    vm.eax = 0x8000_0000;
    vm.ecx = 5;
    let verdict = vm.interrupt(&mut hv, &mut cs, &mut stack, StackInterrupt::Push.number());
    assert_eq!(verdict, InterruptVerdict::OutOfGas);
    assert_eq!(vm.gas_remaining, 0);
    assert_eq!(stack.sccs_item_count(), Ok(0));
}

#[test]
fn exit_revert_and_other_interrupts() {
    let mut stack = ContractCallStack::default();
    let mut cs = DummyCallSystem::new();
    let mut hv = X86Interface::new();
    let mut vm = Guest::new();
    vm.eax = 3;
    vm.gas_remaining = 9;
    assert_eq!(vm.interrupt(&mut hv, &mut cs, &mut stack, 0), InterruptVerdict::Resume);
    assert_eq!(vm.eax, 3);
    assert_eq!(vm.interrupt(&mut hv, &mut cs, &mut stack, 0x13), InterruptVerdict::Resume);
    assert_eq!(vm.eax, 3);
    assert_eq!(vm.interrupt(&mut hv, &mut cs, &mut stack, 0x80), InterruptVerdict::Resume);
    assert_eq!(vm.eax, RecoverableError::InvalidHypervisorInterrupt.code());
    assert_eq!(vm.interrupt(&mut hv, &mut cs, &mut stack, EXIT_INTERRUPT), InterruptVerdict::Stop);
    assert!(!hv.has_reverted());
    assert_eq!(
        vm.interrupt(&mut hv, &mut cs, &mut stack, REVERT_INTERRUPT),
        InterruptVerdict::Stop
    );
    assert!(hv.has_reverted());
    assert_eq!(vm.gas_remaining, 9);
}

#[test]
fn execution_type_is_reported() {
    let mut stack = ContractCallStack::default();
    stack.create_top_level_deploy(NeutronAddress::default(), NeutronAddress::default(), 5, 0);
    let mut cs = DummyCallSystem::new();
    let mut hv = X86Interface::new();
    let mut vm = Guest::new();
    vm.eax = 9;
    assert_eq!(
        vm.interrupt(&mut hv, &mut cs, &mut stack, EXECUTION_TYPE_INTERRUPT),
        InterruptVerdict::Resume
    );
    assert_eq!(vm.eax, ExecutionType::Deploy.code());
}

#[test]
fn stack_interrupt_numbers() {
    for num in 0..=255u8 {
        match StackInterrupt::from_u8(num) {
            Some(which) => {
                assert!(0x10 <= num && num <= 0x18);
                assert_eq!(which.number(), num);
            }
            None => assert!(num < 0x10 || num > 0x18),
        }
    }
    assert_eq!(StackInterrupt::from_u8(0x12), Some(StackInterrupt::Peek));
}

#[test]
fn settling_gas() {
    assert_eq!(settle_gas(100, 30), 70);
    assert_eq!(settle_gas(100, -30), 130);
    assert_eq!(settle_gas(100, 101), 0);
    assert_eq!(settle_gas(u64::MAX, -1), u64::MAX);
    let mut stack = ContractCallStack::default();
    stack.set_gas_remaining(50);
    stack.charge_gas(20).unwrap();
    let outcome = translate_interrupt_result(&mut stack, 50, Ok(Some(7)));
    assert_eq!(
        outcome,
        InterruptOutcome {
            eax: Some(7),
            gas_remaining: 30,
            verdict: InterruptVerdict::Resume,
            fault: None
        }
    );
}

#[test]
fn verdict_of_a_run() {
    let ok = VmExit { crashed: false, eax: 0, gas_remaining: 40 };
    assert_eq!(
        judge_run(ok, false, 100),
        Ok(NeutronVMResult {
            gas_used: 60,
            should_revert: false,
            error_code: 0,
            error_location: 0,
            extra_data: 0
        })
    );
    assert_eq!(judge_run(ok, false, 30).unwrap().gas_used, 0);
    assert_eq!(
        judge_run(ok, true, 100),
        Err(NeutronError::Recoverable(RecoverableError::ContractSignaledError))
    );
    assert_eq!(
        judge_run(VmExit { crashed: false, eax: 1, gas_remaining: 40 }, false, 100),
        Err(NeutronError::Recoverable(RecoverableError::ContractSignaledError))
    );
    assert_eq!(
        judge_run(VmExit { crashed: true, eax: 0, gas_remaining: 40 }, false, 100),
        Err(NeutronError::Recoverable(RecoverableError::ContractExecutionError))
    );
}

#[test]
fn deploy_takes_image_and_stores_sections() {
    let mut stack = ContractCallStack::default();
    stack.create_top_level_deploy(NeutronAddress::default(), NeutronAddress::default(), 500, 0);
    stack.push_sccs(&[7, 7]).unwrap(); // data
    stack.push_sccs(&[0xC3]).unwrap(); // code
    stack.push_sccs(&[1, 1]).unwrap();
    stack.push_sccs(&[2, 0, 0, 0]).unwrap();
    let mut cs = DummyCallSystem::new();
    let mut hv = X86Interface::new();
    assert!(!hv.is_loaded());
    let setup = hv.prepare_execution(&mut cs, &mut stack).unwrap();
    assert!(hv.is_loaded());
    assert_eq!(setup.eip, 0x10000);
    assert_eq!(setup.gas_remaining, 500);
    assert_eq!(setup.code, vec![0xC3]);
    assert_eq!(setup.data, vec![7, 7]);
    assert_eq!(setup.regions.len(), 7);
    assert_eq!((setup.regions[0].address, setup.regions[0].size), (0x10000, 0xFFFF));
    assert_eq!((setup.regions[4].address, setup.regions[4].size), (0x8001_0000, 8192));
    assert_eq!((setup.regions[5].address, setup.regions[5].size), (0x8002_0000, 0xFFFF));
    assert_eq!(stack.sccs_item_count(), Ok(0));
    let exit = VmExit { crashed: false, eax: 0, gas_remaining: 100 };
    let result = hv.finish_execution(&mut cs, &mut stack, exit).unwrap();
    assert_eq!(result.gas_used, 400);
    assert_eq!(result.error_code, 0);
    assert_eq!(cs.stored, vec![(2, vec![1, 0], vec![0xC3]), (2, vec![2, 0], vec![7, 7])]);
    // a call loads what the deploy stored
    let mut stack = ContractCallStack::default();
    stack.create_top_level_call(NeutronAddress::default(), NeutronAddress::default(), 50, 0);
    let mut hv = X86Interface::new();
    let setup = hv.prepare_execution(&mut cs, &mut stack).unwrap();
    assert_eq!(setup.code, vec![0xC3]);
    assert_eq!(setup.data, vec![7, 7]);
    assert_eq!(setup.gas_remaining, 50);
    let failed = VmExit { crashed: false, eax: 3, gas_remaining: 10 };
    assert_eq!(
        hv.finish_execution(&mut cs, &mut stack, failed),
        Err(NeutronError::Recoverable(RecoverableError::ContractSignaledError))
    );
    assert_eq!(cs.stored.len(), 2);
}

#[test]
fn prepare_refuses_what_cannot_run() {
    let mut cs = DummyCallSystem::new();
    let mut hv = X86Interface::new();
    let mut stack = ContractCallStack::default();
    assert_eq!(
        hv.prepare_execution(&mut cs, &mut stack).unwrap_err(),
        NeutronError::Unrecoverable(UnrecoverableError::ContextIndexEmpty)
    );
    // a call of a contract that was never deployed
    stack.create_top_level_call(NeutronAddress::default(), NeutronAddress::default(), 50, 0);
    assert!(hv.prepare_execution(&mut cs, &mut stack).is_err());
    // a deploy without an image
    let mut stack = ContractCallStack::default();
    stack.create_top_level_deploy(NeutronAddress::default(), NeutronAddress::default(), 50, 0);
    assert_eq!(
        hv.prepare_execution(&mut cs, &mut stack).unwrap_err(),
        NeutronError::Recoverable(RecoverableError::StackIndexDoesntExist)
    );
    // an image with two code sections
    stack.push_sccs(&[7]).unwrap();
    stack.push_sccs(&[8]).unwrap();
    stack.push_sccs(&[2, 1]).unwrap();
    stack.push_sccs(&[2, 0, 0, 0]).unwrap();
    assert_eq!(
        hv.prepare_execution(&mut cs, &mut stack).unwrap_err(),
        NeutronError::Unrecoverable(UnrecoverableError::NotImplemented)
    );
    assert_eq!(stack.sccs_item_count(), Ok(2));
    // a section info of one byte
    stack.push_sccs(&[1]).unwrap();
    stack.push_sccs(&[2, 0, 0, 0]).unwrap();
    assert_eq!(
        hv.prepare_execution(&mut cs, &mut stack).unwrap_err(),
        NeutronError::Recoverable(RecoverableError::StackItemTooSmall)
    );
    // a bare execution
    let mut stack = ContractCallStack::default();
    stack.create_top_level_call(NeutronAddress::default(), NeutronAddress::default(), 50, 0);
    let mut context = stack.pop_context().unwrap();
    context.execution_type = ExecutionType::BareExecution;
    stack.push_context(context).unwrap();
    assert_eq!(
        hv.prepare_execution(&mut cs, &mut stack).unwrap_err(),
        NeutronError::Unrecoverable(UnrecoverableError::NotImplemented)
    );
    assert!(!hv.is_loaded());
}

#[test]
fn system_call_gets_the_registers() {
    let mut stack = ContractCallStack::default();
    let mut cs = DummyCallSystem::new();
    let mut hv = X86Interface::new();
    let mut vm = Guest::new();
    cs.answer = Ok(0);
    vm.eax = 2;
    vm.ecx = 3;
    vm.interrupt(&mut hv, &mut cs, &mut stack, SYSTEM_CALL_INTERRUPT);
    assert_eq!(cs.calls, vec![(2, 3)]);
    assert!(cs.log.is_empty());
    vm.interrupt(&mut hv, &mut cs, &mut stack, EXIT_INTERRUPT);
    vm.interrupt(&mut hv, &mut cs, &mut stack, 0x80);
    vm.interrupt(&mut hv, &mut cs, &mut stack, 0);
    assert_eq!(cs.calls, vec![(2, 3)]);
}

#[test]
fn hypervisor_tells_the_log() {
    let mut stack = ContractCallStack::default();
    let mut cs = DummyCallSystem::new();
    let mut hv = X86Interface::new();
    let mut vm = Guest::new();
    vm.interrupt(&mut hv, &mut cs, &mut stack, 0);
    vm.interrupt(&mut hv, &mut cs, &mut stack, 0x13);
    assert!(cs.log.is_empty());
    vm.interrupt(&mut hv, &mut cs, &mut stack, StackInterrupt::Pop.number());
    vm.interrupt(&mut hv, &mut cs, &mut stack, EXECUTION_TYPE_INTERRUPT);
    vm.interrupt(&mut hv, &mut cs, &mut stack, 0x80);
    vm.interrupt(&mut hv, &mut cs, &mut stack, EXIT_INTERRUPT);
    vm.interrupt(&mut hv, &mut cs, &mut stack, REVERT_INTERRUPT);
    vm.eax = 0x1000;
    vm.ecx = 1;
    vm.interrupt(&mut hv, &mut cs, &mut stack, StackInterrupt::Push.number());
    stack.push_sccs(&[1]).unwrap();
    vm.eax = 0x1000;
    vm.ecx = 1;
    vm.interrupt(&mut hv, &mut cs, &mut stack, StackInterrupt::Pop.number());
    cs.answer = Err(NeutronError::Unrecoverable(UnrecoverableError::NotImplemented));
    vm.interrupt(&mut hv, &mut cs, &mut stack, SYSTEM_CALL_INTERRUPT);
    cs.answer = Err(NeutronError::Recoverable(RecoverableError::InvalidSystemFunction));
    vm.interrupt(&mut hv, &mut cs, &mut stack, SYSTEM_CALL_INTERRUPT);
    cs.answer = Err(NeutronError::Recoverable(RecoverableError::OutOfGas));
    vm.interrupt(&mut hv, &mut cs, &mut stack, SYSTEM_CALL_INTERRUPT);
    assert_eq!(
        cs.log,
        vec![
            "Debug: Recoverable hypervisor error: StackIndexDoesntExist",
            "Warning: Unrecoverable hypervisor error: ContextIndexEmpty",
            "Warning: Invalid interrupt triggered: 128",
            "Debug: Exit interrupt triggered",
            "Debug: Revert interrupt triggered",
            "Debug: Recoverable hypervisor error: ErrorCopyingFromVM",
            "Debug: Recoverable hypervisor error: ErrorCopyingIntoVM",
            "Warning: Unrecoverable system call error: NotImplemented",
            "Debug: Recoverable system call error: InvalidSystemFunction",
            "Debug: Ran out of gas during system call execution",
        ]
    );
}
