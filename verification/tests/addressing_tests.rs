use neutron_host::addressing::NeutronAddress;
use neutron_host::addressing::NeutronShortAddress;
use neutron_host::interface::ExecutionType;
use neutron_host::interface::NeutronVersion;
use neutron_host::neutronerror::NeutronError;
use neutron_host::neutronerror::RecoverableError;
use neutron_host::neutronerror::UnrecoverableError;

#[test]
fn short_address_is_start_of_sha256() {
    let a = NeutronAddress { version: 7, data: b"abc".to_vec() };
    let short = a.to_short_address();
    assert_eq!(short.version, 7);
    assert_eq!(
        short.data,
        [
            0xba, 0x78, 0x16, 0xbf, 0x8f, 0x01, 0xcf, 0xea, 0x41, 0x41, 0x40, 0xde, 0x5d, 0xae,
            0x22, 0x23, 0xb0, 0x03, 0x61, 0xa3
        ]
    );
}

#[test]
fn short_address_of_empty_data() {
    let a = NeutronAddress::default();
    let short = a.to_short_address();
    assert_eq!(short.version, 0);
    assert_eq!(
        short.data,
        [
            0xe3, 0xb0, 0xc4, 0x42, 0x98, 0xfc, 0x1c, 0x14, 0x9a, 0xfb, 0xf4, 0xc8, 0x99, 0x6f,
            0xb9, 0x24, 0x27, 0xae, 0x41, 0xe4
        ]
    );
}

#[test]
fn random_address_has_32_bytes_and_keeps_version() {
    let mut a = NeutronAddress { version: 2, data: vec![1] };
    a.set_to_random_address();
    assert_eq!(a.version, 2);
    assert_eq!(a.data.len(), 32);
    let b = NeutronAddress::new_random_address();
    assert_eq!(b.version, 0);
    assert_eq!(b.data.len(), 32);
    assert_ne!(a.data, b.data);
}

#[test]
fn addresses_compare_by_version_and_data() {
    let a = NeutronAddress { version: 1, data: vec![1, 2] };
    let b = a.clone();
    assert!(a.same(&b));
    assert!(!a.same(&NeutronAddress { version: 2, data: vec![1, 2] }));
    assert!(!a.same(&NeutronAddress { version: 1, data: vec![1, 3] }));
    assert!(!a.same(&NeutronAddress { version: 1, data: vec![1] }));
    let mut s = NeutronShortAddress::default();
    let t = s;
    assert!(s.same(&t));
    s.data[19] = 1;
    assert!(!s.same(&t));
}

#[test]
fn codes_of_recoverable_errors() {
    let all = [
        (RecoverableError::StackIndexDoesntExist, 0x8000_0001u32),
        (RecoverableError::StackItemTooLarge, 0x8000_0002),
        (RecoverableError::StackItemTooSmall, 0x8000_0003),
        (RecoverableError::InvalidSystemFunction, 0x8000_0004),
        (RecoverableError::InvalidSystemFeature, 0x8000_0005),
        (RecoverableError::ErrorCopyingIntoVM, 0x8000_0006),
        (RecoverableError::ErrorCopyingFromVM, 0x8000_0007),
        (RecoverableError::ContractSignaledError, 0x8000_0008),
        (RecoverableError::ContractExecutionError, 0x8000_0009),
        (RecoverableError::InvalidHypervisorInterrupt, 0x8000_000A),
        (RecoverableError::OutOfGas, 0x8000_000B),
    ];
    for (e, code) in all.iter() {
        assert_eq!(e.code(), *code);
    }
}

#[test]
fn messages_of_errors() {
    assert_eq!(
        NeutronError::Recoverable(RecoverableError::OutOfGas).message(),
        "Recoverable Failure! OutOfGas"
    );
    assert_eq!(
        NeutronError::Unrecoverable(UnrecoverableError::StateOutOfRent).message(),
        "Unrecoverable Failure! StateOutOfRent"
    );
    assert_eq!(UnrecoverableError::UnknownVM.name(), "UnknownVM");
    assert_eq!(RecoverableError::StackItemTooSmall.name(), "StackItemTooSmall");
}

#[test]
fn version_record_is_little_endian() {
    let v = NeutronVersion {
        format: 1,
        root_vm: 2,
        vm_version: 3,
        flags: 0x0504,
        platform_version: 0x0908_0706,
    };
    let bytes = v.to_bytes();
    assert_eq!(bytes, vec![1, 2, 3, 4, 5, 6, 7, 8, 9]);
    assert_eq!(NeutronVersion::from_bytes(&bytes), Some(v));
    assert_eq!(NeutronVersion::from_bytes(&bytes[0..8]), None);
    assert_eq!(NeutronVersion::from_bytes(&[0; 10]), None);
}

#[test]
fn execution_types_have_codes() {
    assert_eq!(ExecutionType::Call.code(), 0);
    assert_eq!(ExecutionType::Deploy.code(), 1);
    assert_eq!(ExecutionType::BareExecution.code(), 2);
    assert_eq!(ExecutionType::default(), ExecutionType::Call);
}
