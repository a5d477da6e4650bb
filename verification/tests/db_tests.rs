use neutron_host::addressing::NeutronShortAddress;
use neutron_host::callstack::ContractCallStack;
use neutron_host::callstack::CostTable;
use neutron_host::db::NeutronDB;
use neutron_host::db::ProtoDB;
use neutron_host::neutronerror::NeutronError;
use neutron_host::neutronerror::RecoverableError;
use neutron_host::neutronerror::UnrecoverableError;
use neutron_host::syscall_interfaces::storage::GLOBAL_STORAGE_FEATURE;

fn sample_address() -> NeutronShortAddress {
    let mut a = NeutronShortAddress::default();
    a.version = 100;
    a.data[5] = 20;
    a
}

/// ReadUncached 50, ReadUncachedByte 7, ReadCachedByte 5, WriteUncached 100,
/// WriteUncachedByte 2, WriteKeyByte 3, WriteCached 10, WriteCachedByte 1,
/// RefundUncachedByte 4, RefundCachedByte 1.
fn priced_stack() -> ContractCallStack<CostTable> {
    let mut table = CostTable::new();
    let costs: [i64; 10] = [50, 7, 5, 100, 2, 3, 10, 1, 4, 1];
    for (i, cost) in costs.iter().enumerate() {
        table.set_cost(GLOBAL_STORAGE_FEATURE, (i + 1) as u32, *cost);
    }
    let mut stack = ContractCallStack::new_with_schedule(table);
    stack.set_gas_remaining(1_000_000);
    stack
}

#[test]
fn test_basic() {
    let a = sample_address();
    let mut stack = ContractCallStack::default();
    let mut db = ProtoDB::default();
    assert!(db.checkpoint().is_ok());
    assert!(db.write_key(&mut stack, &a, &[1], &[8, 8, 8, 8]).is_ok());
    assert!(db.write_key(&mut stack, &a, &[1], &[9, 9, 9, 9]).is_ok());
    let v = db.read_key(&mut stack, &a, &[1]).unwrap();
    assert!(v == vec![9, 9, 9, 9]);
}

#[test]
fn test_checkpoints() {
    let a = sample_address();
    let mut stack = ContractCallStack::default();
    let mut db = ProtoDB::default();
    assert!(db.checkpoint().is_ok());
    assert!(db.write_key(&mut stack, &a, &[1], &[8, 8, 8, 8]).is_ok());
    assert!(db.checkpoint().is_ok());
    assert!(db.write_key(&mut stack, &a, &[1], &[9, 9, 9, 9]).is_ok());
    assert!(db.revert_checkpoint().is_ok());
    let v = db.read_key(&mut stack, &a, &[1]).unwrap();
    assert!(v == vec![8, 8, 8, 8]);
}

#[test]
fn test_storage() {
    let a = sample_address();
    let mut stack = ContractCallStack::default();
    let mut db = ProtoDB::default();
    assert!(db.checkpoint().is_ok());
    assert!(db.write_key(&mut stack, &a, &[1], &[8, 8, 8, 8]).is_ok());
    assert!(db.commit().is_ok());
    assert!(db.revert_checkpoint().is_err());
    db.clear_checkpoints();
    let v = db.read_key(&mut stack, &a, &[1]).unwrap();
    assert!(v == vec![8, 8, 8, 8]);
    db.clear_checkpoints();
    assert!(db.checkpoint().is_ok());
    assert!(db.write_key(&mut stack, &a, &[1, 2, 3], &[9, 9, 9, 9]).is_ok());
    assert!(db.commit().is_ok());
    assert!(db.revert_checkpoint().is_err());
    assert!(db.checkpoint().is_ok());
    let v = db.read_key(&mut stack, &a, &[1, 2, 3]).unwrap();
    assert!(v == vec![9, 9, 9, 9]);
}

#[test]
fn replicate_checkpoint_bug() {
    let a = sample_address();
    let mut stack = ContractCallStack::default();
    let mut db = ProtoDB::default();
    //deploy
    assert!(db.checkpoint().is_ok());
    assert!(db.write_key(&mut stack, &a, &[2, 1, 0], &[10]).is_ok());
    assert!(db.commit().is_ok());
    //first call
    assert!(db.checkpoint().is_ok());
    let v = db.read_key(&mut stack, &a, &[2, 1, 0]).unwrap();
    assert!(v == vec![10]);
    db.write_key(&mut stack, &a, &[95, 0, 1, 2, 3], &[10, 20, 30, 40]).unwrap();
    db.commit().unwrap();
    //second call
    db.checkpoint().unwrap();
    let v = db.read_key(&mut stack, &a, &[2, 1, 0]).unwrap();
    assert!(v == vec![10]);
}

#[test]
fn commit_merges_keys_of_one_address() {
    let a = sample_address();
    let mut stack = ContractCallStack::default();
    let mut db = ProtoDB::default();
    db.checkpoint().unwrap();
    db.write_key(&mut stack, &a, &[1], &[8, 8, 8, 8]).unwrap();
    db.commit().unwrap();
    db.checkpoint().unwrap();
    db.write_key(&mut stack, &a, &[1, 2, 3], &[9, 9, 9, 9]).unwrap();
    db.commit().unwrap();
    db.checkpoint().unwrap();
    assert_eq!(db.read_key(&mut stack, &a, &[1, 2, 3]).unwrap(), vec![9, 9, 9, 9]);
    assert_eq!(db.read_key(&mut stack, &a, &[1]).unwrap(), vec![8, 8, 8, 8]);
}

#[test]
fn checkpoint_counts_and_revert_depth() {
    let mut db = ProtoDB::default();
    assert_eq!(db.checkpoint(), Ok(1));
    assert_eq!(db.checkpoint(), Ok(2));
    assert_eq!(db.revert_checkpoint(), Ok(1));
    assert_eq!(db.revert_checkpoint(), Ok(0));
    assert_eq!(
        db.revert_checkpoint(),
        Err(NeutronError::Unrecoverable(UnrecoverableError::DatabaseCommitError))
    );
}

#[test]
fn write_without_checkpoint_fails() {
    let a = sample_address();
    let mut stack = ContractCallStack::default();
    let mut db = ProtoDB::default();
    assert_eq!(
        db.write_key(&mut stack, &a, &[1], &[1]),
        Err(NeutronError::Unrecoverable(UnrecoverableError::DatabaseWritingError))
    );
}

#[test]
fn read_of_missing_key_fails() {
    let a = sample_address();
    let mut stack = ContractCallStack::default();
    let mut db = ProtoDB::default();
    db.checkpoint().unwrap();
    assert_eq!(
        db.read_key(&mut stack, &a, &[7]),
        Err(NeutronError::Unrecoverable(UnrecoverableError::StateOutOfRent))
    );
    db.write_key(&mut stack, &a, &[7], &[1]).unwrap();
    let mut other = sample_address();
    other.version = 101;
    assert_eq!(
        db.read_key(&mut stack, &other, &[7]),
        Err(NeutronError::Unrecoverable(UnrecoverableError::StateOutOfRent))
    );
}

#[test]
fn revert_restores_value_before_checkpoint() {
    let a = sample_address();
    let mut stack = ContractCallStack::default();
    let mut db = ProtoDB::default();
    db.checkpoint().unwrap();
    db.write_key(&mut stack, &a, &[1], &[1, 1]).unwrap();
    db.commit().unwrap();
    db.checkpoint().unwrap();
    db.write_key(&mut stack, &a, &[1], &[2, 2]).unwrap();
    db.write_key(&mut stack, &a, &[2], &[3]).unwrap();
    db.revert_checkpoint().unwrap();
    assert_eq!(db.read_key(&mut stack, &a, &[1]).unwrap(), vec![1, 1]);
    assert_eq!(
        db.read_key(&mut stack, &a, &[2]),
        Err(NeutronError::Unrecoverable(UnrecoverableError::StateOutOfRent))
    );
}

#[test]
fn collapse_keeps_latest_values() {
    let a = sample_address();
    let mut stack = ContractCallStack::default();
    let mut db = ProtoDB::default();
    db.checkpoint().unwrap();
    db.write_key(&mut stack, &a, &[1], &[1]).unwrap();
    db.write_key(&mut stack, &a, &[2], &[2]).unwrap();
    db.checkpoint().unwrap();
    db.write_key(&mut stack, &a, &[1], &[3]).unwrap();
    db.collapse_checkpoints().unwrap();
    assert_eq!(db.read_key(&mut stack, &a, &[1]).unwrap(), vec![3]);
    assert_eq!(db.read_key(&mut stack, &a, &[2]).unwrap(), vec![2]);
    assert_eq!(db.revert_checkpoint(), Ok(0));
    db.collapse_checkpoints().unwrap();
    assert_eq!(db.revert_checkpoint(), Ok(0));
}

#[test]
fn clone_of_store_reads_alike() {
    let a = sample_address();
    let mut stack = ContractCallStack::default();
    let mut db = ProtoDB::default();
    db.checkpoint().unwrap();
    db.write_key(&mut stack, &a, &[1], &[4, 5]).unwrap();
    let mut copy = db.clone();
    db.write_key(&mut stack, &a, &[1], &[6]).unwrap();
    assert_eq!(copy.read_key(&mut stack, &a, &[1]).unwrap(), vec![4, 5]);
    assert_eq!(db.read_key(&mut stack, &a, &[1]).unwrap(), vec![6]);
}

#[test]
fn gas_of_uncached_and_cached_writes() {
    let a = sample_address();
    let mut stack = priced_stack();
    let mut db = ProtoDB::default();
    db.checkpoint().unwrap();
    // uncached: 100 + 2 * 4 + 3 * 1 - 4 * 0
    db.write_key(&mut stack, &a, &[1], &[8, 8, 8, 8]).unwrap();
    assert_eq!(stack.pending_gas(), 111);
    // cached: 10 + 1 * 2 - 1 * 4
    db.write_key(&mut stack, &a, &[1], &[9, 9]).unwrap();
    assert_eq!(stack.pending_gas(), 111 + 8);
}

#[test]
fn gas_of_cached_and_uncached_reads() {
    let a = sample_address();
    let mut stack = priced_stack();
    let mut db = ProtoDB::default();
    db.checkpoint().unwrap();
    db.write_key(&mut stack, &a, &[1], &[8, 8, 8, 8]).unwrap();
    stack.set_pending_gas(0);
    // cached: 5 * 4
    db.read_key(&mut stack, &a, &[1]).unwrap();
    assert_eq!(stack.pending_gas(), 20);
    // a read that hits an older checkpoint is uncached: 50 + 7 * 4
    db.checkpoint().unwrap();
    stack.set_pending_gas(0);
    db.read_key(&mut stack, &a, &[1]).unwrap();
    assert_eq!(stack.pending_gas(), 78);
    // so is a read that hits the storage
    db.commit().unwrap();
    stack.set_pending_gas(0);
    db.read_key(&mut stack, &a, &[1]).unwrap();
    assert_eq!(stack.pending_gas(), 78);
}

#[test]
fn write_out_of_gas_changes_nothing_in_store() {
    let a = sample_address();
    let mut stack = priced_stack();
    stack.set_gas_remaining(110);
    let mut db = ProtoDB::default();
    db.checkpoint().unwrap();
    assert_eq!(
        db.write_key(&mut stack, &a, &[1], &[8, 8, 8, 8]),
        Err(NeutronError::Recoverable(RecoverableError::OutOfGas))
    );
    assert_eq!(stack.pending_gas(), 111);
    stack.disable_system_charges();
    stack.set_pending_gas(0);
    assert_eq!(
        db.read_key(&mut stack, &a, &[1]),
        Err(NeutronError::Unrecoverable(UnrecoverableError::StateOutOfRent))
    );
}
