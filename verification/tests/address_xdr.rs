use soroban_sdk::testutils::{Address as _, EnvTestConfig};
use soroban_sdk::xdr::{FromXdr, ToXdr};
use soroban_sdk::{Address, Bytes, Env};

use soroban_contracts::types::{addr_from_xdr, addr_to_xdr, Addr, AddressKind};

fn new_env() -> Env {
    Env::new_with_config(EnvTestConfig { capture_snapshot_at_drop: false })
}

fn host_bytes(b: &Bytes) -> Vec<u8> {
    let mut v = vec![0u8; b.len() as usize];
    b.copy_into_slice(&mut v);
    v
}

#[test]
fn account_address_encodes_with_account_tags() {
    let a = Addr { kind: AddressKind::Account, key: [7u8; 32] };
    let bytes = addr_to_xdr(&a);
    assert_eq!(bytes.len(), 44);
    assert_eq!(&bytes[..12], &[0, 0, 0, 18, 0, 0, 0, 0, 0, 0, 0, 0]);
    assert_eq!(&bytes[12..], &[7u8; 32]);
    assert_eq!(addr_from_xdr(&bytes), Some(a));
}

#[test]
fn contract_address_encodes_with_contract_tags() {
    let a = Addr { kind: AddressKind::Contract, key: [9u8; 32] };
    let bytes = addr_to_xdr(&a);
    assert_eq!(bytes.len(), 40);
    assert_eq!(&bytes[..8], &[0, 0, 0, 18, 0, 0, 0, 1]);
    assert_eq!(addr_from_xdr(&bytes), Some(a));
}

#[test]
fn other_bytes_decode_to_nothing() {
    assert_eq!(addr_from_xdr(&[]), None);
    assert_eq!(addr_from_xdr(&[0, 0, 0, 18, 0, 0, 0, 2]), None);
    let mut bytes = addr_to_xdr(&Addr { kind: AddressKind::Contract, key: [1u8; 32] });
    bytes[3] = 17;
    assert_eq!(addr_from_xdr(&bytes), None);
    bytes[3] = 18;
    bytes.push(0);
    assert_eq!(addr_from_xdr(&bytes), None);
}

#[test]
fn host_addresses_round_trip_through_the_codec() {
    let env = new_env();
    let account = Address::generate(&env);
    let contract = env.register_stellar_asset_contract_v2(Address::generate(&env)).address();
    for host_addr in [account, contract] {
        let bytes = host_bytes(&host_addr.clone().to_xdr(&env));
        let addr = addr_from_xdr(&bytes).unwrap();
        assert_eq!(addr_to_xdr(&addr), bytes);
        let back = Address::from_xdr(&env, &Bytes::from_slice(&env, &addr_to_xdr(&addr))).unwrap();
        assert_eq!(back, host_addr);
    }
}
