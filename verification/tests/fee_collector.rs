use std::collections::HashMap;

use soroban_contracts::fee_collector::{
    Deducted, FeeBpsUpdated, FeeCollectorContract, FeeError, Initialized, DEFAULT_FEE_BPS, MAX_FEE_BPS,
};
use soroban_contracts::types::{Addr, AddressKind, Party, Transfer};

fn account(b: u8) -> Addr {
    Addr { kind: AddressKind::Account, key: [b; 32] }
}

fn token_contract() -> Addr {
    Addr { kind: AddressKind::Contract, key: [200; 32] }
}

/// A fresh contract, a token, an admin and a treasury.
fn setup() -> (FeeCollectorContract, Addr, Addr, Addr) {
    (FeeCollectorContract::new(), token_contract(), account(1), account(2))
}

fn apply(balances: &mut HashMap<Party, i128>, transfers: &[Transfer]) {
    for t in transfers {
        *balances.entry(t.from).or_insert(0) -= t.amount;
        *balances.entry(t.to).or_insert(0) += t.amount;
    }
}

fn balance(balances: &HashMap<Party, i128>, p: Party) -> i128 {
    *balances.get(&p).unwrap_or(&0)
}

#[test]
fn get_fee_bps_defaults_to_50_before_initialize() {
    let (client, _token_address, _admin, _treasury) = setup();

    assert_eq!(client.get_fee_bps(), 50);
}

#[test]
fn initialize_sets_fee_and_treasury() {
    let (mut client, _token_address, admin, treasury) = setup();

    client.initialize(admin, 75, treasury);

    assert_eq!(client.get_fee_bps(), 75);
}

#[test]
fn deduct_splits_funds_between_merchant_and_treasury() {
    let (mut client, token_address, admin, treasury) = setup();
    let merchant = account(3);
    let mut balances: HashMap<Party, i128> = HashMap::new();

    client.initialize(admin, 50, treasury);

    balances.insert(Party::Contract, 10_000);
    let d = client.deduct(token_address, 10_000, merchant).unwrap();
    apply(&mut balances, &d.transfers);

    assert_eq!(d.merchant_amount, 9_950);
    assert_eq!(d.fee_amount, 50);

    assert_eq!(balance(&balances, Party::Address(merchant)), 9_950);
    assert_eq!(balance(&balances, Party::Address(treasury)), 50);
    assert_eq!(balance(&balances, Party::Contract), 0);
}

#[test]
fn set_fee_bps_updates_within_limit() {
    let (mut client, _token_address, admin, treasury) = setup();

    client.initialize(admin, 50, treasury);
    client.set_fee_bps(200).unwrap();

    assert_eq!(client.get_fee_bps(), 200);
}

#[test]
fn set_fee_bps_above_limit_panics() {
    let (mut client, _token_address, admin, treasury) = setup();

    client.initialize(admin, 50, treasury);
    assert_eq!(client.set_fee_bps(201), Err(FeeError::FeeTooHigh));
    assert_eq!(client.get_fee_bps(), 50);
}

#[test]
fn deduct_before_initialize_panics() {
    let (client, token_address, _admin, _treasury) = setup();
    let merchant = account(3);

    assert_eq!(client.deduct(token_address, 1_000, merchant), Err(FeeError::NotInitialized));
}

#[test]
fn initialize_reports_event_and_stores_all_entries() {
    let (mut client, _token, admin, treasury) = setup();
    let ev = client.initialize(admin, 75, treasury);
    assert_eq!(ev, Initialized { admin, fee_bps: 75, treasury });
    assert_eq!(client.admin, Some(admin));
    assert_eq!(client.fee_bps, Some(75));
    assert_eq!(client.treasury, Some(treasury));
}

#[test]
fn initialize_again_replaces_configuration() {
    let (mut client, _token, admin, treasury) = setup();
    client.initialize(admin, 75, treasury);
    let other_admin = account(9);
    let other_treasury = account(8);
    client.initialize(other_admin, 10, other_treasury);
    assert_eq!(client.admin, Some(other_admin));
    assert_eq!(client.treasury, Some(other_treasury));
    assert_eq!(client.get_fee_bps(), 10);
}

#[test]
fn initialize_accepts_fee_above_set_limit() {
    let (mut client, token, admin, treasury) = setup();
    client.initialize(admin, 5_000, treasury);
    assert_eq!(client.get_fee_bps(), 5_000);
    let d = client.deduct(token, 1_000, account(3)).unwrap();
    assert_eq!(d.fee_amount, 500);
    assert_eq!(d.merchant_amount, 500);
}

#[test]
fn deduct_reports_transfers_in_order_and_event() {
    let (mut client, token, admin, treasury) = setup();
    let merchant = account(3);
    client.initialize(admin, 200, treasury);
    let d = client.deduct(token, 12_345, merchant).unwrap();
    // 12_345 * 200 / 10_000 = 246.9, rounded toward zero
    assert_eq!(d.fee_amount, 246);
    assert_eq!(d.merchant_amount, 12_099);
    assert!(50 * d.fee_amount <= 12_345);
    assert_eq!(
        d.transfers,
        vec![
            Transfer { token, from: Party::Contract, to: Party::Address(merchant), amount: 12_099 },
            Transfer { token, from: Party::Contract, to: Party::Address(treasury), amount: 246 },
        ]
    );
    assert_eq!(
        d.event,
        Deducted { token, merchant, gross_amount: 12_345, merchant_amount: 12_099, fee_amount: 246 }
    );
}

#[test]
fn deduct_rounds_negative_amounts_toward_zero() {
    let (mut client, token, admin, treasury) = setup();
    client.initialize(admin, 50, treasury);
    let d = client.deduct(token, -10_001, account(3)).unwrap();
    // -10_001 * 50 / 10_000 = -50.005, rounded toward zero
    assert_eq!(d.fee_amount, -50);
    assert_eq!(d.merchant_amount, -9_951);
}

#[test]
fn deduct_small_amount_charges_no_fee() {
    let (mut client, token, admin, treasury) = setup();
    client.initialize(admin, 50, treasury);
    let d = client.deduct(token, 199, account(3)).unwrap();
    assert_eq!(d.fee_amount, 0);
    assert_eq!(d.merchant_amount, 199);
    assert_eq!(d.transfers.len(), 2);
}

#[test]
fn deduct_overflow_is_refused() {
    let (mut client, token, admin, treasury) = setup();
    client.initialize(admin, 2, treasury);
    assert_eq!(client.deduct(token, i128::MAX, account(3)), Err(FeeError::ArithmeticOverflow));
    let d = client.deduct(token, i128::MAX / 2, account(3)).unwrap();
    assert_eq!(d.merchant_amount + d.fee_amount, i128::MAX / 2);
}

#[test]
fn deduct_without_treasury_is_refused() {
    let mut client = FeeCollectorContract::new();
    client.fee_bps = Some(50);
    assert_eq!(client.deduct(token_contract(), 100, account(3)), Err(FeeError::NotInitialized));
}

#[test]
fn set_fee_bps_before_initialize_is_refused() {
    let mut client = FeeCollectorContract::new();
    assert_eq!(client.set_fee_bps(100), Err(FeeError::NotInitialized));
    assert_eq!(client, FeeCollectorContract::new());
    assert_eq!(client.get_fee_bps(), DEFAULT_FEE_BPS);
}

#[test]
fn set_fee_bps_reports_event_and_keeps_admin_and_treasury() {
    let (mut client, _token, admin, treasury) = setup();
    client.initialize(admin, 50, treasury);
    assert_eq!(client.set_fee_bps(MAX_FEE_BPS), Ok(FeeBpsUpdated { new_fee_bps: 200 }));
    assert_eq!(client.set_fee_bps(0), Ok(FeeBpsUpdated { new_fee_bps: 0 }));
    assert_eq!(client.get_fee_bps(), 0);
    assert_eq!(client.admin, Some(admin));
    assert_eq!(client.treasury, Some(treasury));
}

#[test]
fn full_fee_leaves_merchant_nothing() {
    let (mut client, token, admin, treasury) = setup();
    client.initialize(admin, 10_000, treasury);
    let d = client.deduct(token, 777, account(3)).unwrap();
    assert_eq!(d.fee_amount, 777);
    assert_eq!(d.merchant_amount, 0);
}

#[test]
fn set_fee_authorizer_is_the_stored_admin() {
    let (mut client, _token, admin, treasury) = setup();
    assert_eq!(client.set_fee_authorizer(), None);
    client.initialize(admin, 50, treasury);
    assert_eq!(client.set_fee_authorizer(), Some(admin));
}
