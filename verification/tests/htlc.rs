use std::collections::HashMap;

use soroban_sdk::testutils::{EnvTestConfig, Ledger};
use soroban_sdk::{Bytes, Env};

use soroban_contracts::escrow::HTLCContract;
use soroban_contracts::htlc::{
    deposit_transfer, lock_id_for, open_lock, refund_entry, withdraw_entry, withdraw_with_preimage, HTLCError,
    LockEntry, LockError, Locked, Refunded,
};
use soroban_contracts::types::{Addr, AddressKind, Party, Transfer};

fn account(b: u8) -> Addr {
    Addr { kind: AddressKind::Account, key: [b; 32] }
}

fn new_env() -> Env {
    Env::new_with_config(EnvTestConfig { capture_snapshot_at_drop: false })
}

fn digest(env: &Env, data: &[u8]) -> [u8; 32] {
    env.crypto().sha256(&Bytes::from_slice(env, data)).to_array()
}

struct Fixture {
    env: Env,
    client: HTLCContract,
    token: Addr,
    sender: Addr,
    receiver: Addr,
    balances: HashMap<Party, i128>,
}

impl Fixture {
    fn apply(&mut self, t: &Transfer) {
        *self.balances.entry(t.from).or_insert(0) -= t.amount;
        *self.balances.entry(t.to).or_insert(0) += t.amount;
    }

    fn balance(&self, p: Party) -> i128 {
        *self.balances.get(&p).unwrap_or(&0)
    }

    fn lock(&mut self, amount: i128, hashlock: [u8; 32], timelock: u64) -> [u8; 32] {
        let receipt = self
            .client
            .lock(&self.env, self.sender, self.receiver, self.token, amount, hashlock, timelock)
            .unwrap();
        self.apply(&receipt.deposit);
        receipt.lock_id
    }
}

/// Ledger time 1_000, a token, and a sender holding 10_000 of it.
fn setup() -> Fixture {
    let env = new_env();
    env.ledger().set_timestamp(1_000);
    let mut balances = HashMap::new();
    let sender = account(1);
    balances.insert(Party::Address(sender), 10_000);
    Fixture {
        env,
        client: HTLCContract::new(),
        token: Addr { kind: AddressKind::Contract, key: [77; 32] },
        sender,
        receiver: account(2),
        balances,
    }
}

#[test]
fn lock_stores_entry_and_moves_funds() {
    let mut f = setup();
    let amount = 1_500_i128;
    let timelock = 2_000_u64;
    let preimage = [1u8, 2, 3, 4];
    let hashlock = digest(&f.env, &preimage);

    let lock_id = f.lock(amount, hashlock, timelock);

    let entry = f.client.get_lock(&lock_id).unwrap();
    assert!(entry.sender == f.sender);
    assert!(entry.receiver == f.receiver);
    assert!(entry.token == f.token);
    assert!(entry.amount == amount);
    assert!(entry.hashlock == hashlock);
    assert!(entry.timelock == timelock);
    assert!(!entry.withdrawn);
    assert!(!entry.refunded);

    assert_eq!(f.balance(Party::Address(f.sender)), 8_500);
    assert_eq!(f.balance(Party::Contract), amount);
}

#[test]
fn withdraw_with_valid_preimage_transfers_to_receiver() {
    let mut f = setup();
    let amount = 900_i128;
    let timelock = 2_000_u64;
    let preimage = [7u8, 7, 7, 7];
    let hashlock = digest(&f.env, &preimage);

    let lock_id = f.lock(amount, hashlock, timelock);
    let w = f.client.withdraw(&f.env, &lock_id, &preimage).unwrap();
    f.apply(&w.payout);

    let entry = f.client.get_lock(&lock_id).unwrap();
    assert!(entry.withdrawn);
    assert!(!entry.refunded);

    assert_eq!(f.balance(Party::Contract), 0);
    assert_eq!(f.balance(Party::Address(f.receiver)), amount);
}

#[test]
fn refund_after_expiry_returns_funds_to_sender() {
    let mut f = setup();
    let amount = 1_200_i128;
    let timelock = 1_050_u64;
    let preimage = [9u8, 9, 9];
    let hashlock = digest(&f.env, &preimage);

    let lock_id = f.lock(amount, hashlock, timelock);

    f.env.ledger().set_timestamp(1_051);
    let r = f.client.refund(&f.env, &lock_id).unwrap();
    f.apply(&r.payout);

    let entry = f.client.get_lock(&lock_id).unwrap();
    assert!(!entry.withdrawn);
    assert!(entry.refunded);

    assert_eq!(f.balance(Party::Contract), 0);
    assert_eq!(f.balance(Party::Address(f.sender)), 10_000);
}

#[test]
fn withdraw_with_invalid_preimage_panics() {
    let mut f = setup();
    let amount = 500_i128;
    let timelock = 2_000_u64;
    let good_preimage = [11u8, 22, 33];
    let bad_preimage = [44u8, 55, 66];
    let hashlock = digest(&f.env, &good_preimage);

    let lock_id = f.lock(amount, hashlock, timelock);
    let err = f.client.withdraw(&f.env, &lock_id, &bad_preimage).unwrap_err();
    assert_eq!(err, HTLCError::InvalidPreimage);
    assert_eq!(err.code(), 2);
}

#[test]
fn withdraw_after_expiry_panics() {
    let mut f = setup();
    let amount = 700_i128;
    let timelock = 1_010_u64;
    let preimage = [77u8];
    let hashlock = digest(&f.env, &preimage);

    let lock_id = f.lock(amount, hashlock, timelock);
    f.env.ledger().set_timestamp(1_010);
    let err = f.client.withdraw(&f.env, &lock_id, &preimage).unwrap_err();
    assert_eq!(err, HTLCError::LockExpired);
    assert_eq!(err.code(), 3);
}

#[test]
fn refund_before_expiry_panics() {
    let mut f = setup();
    let amount = 700_i128;
    let timelock = 2_000_u64;
    let preimage = [88u8];
    let hashlock = digest(&f.env, &preimage);

    let lock_id = f.lock(amount, hashlock, timelock);
    f.env.ledger().set_timestamp(1_500);
    let err = f.client.refund(&f.env, &lock_id).unwrap_err();
    assert_eq!(err, HTLCError::NotYetExpired);
    assert_eq!(err.code(), 6);
}

#[test]
fn second_withdraw_panics() {
    let mut f = setup();
    let amount = 333_i128;
    let timelock = 2_000_u64;
    let preimage = [99u8];
    let hashlock = digest(&f.env, &preimage);

    let lock_id = f.lock(amount, hashlock, timelock);
    f.client.withdraw(&f.env, &lock_id, &preimage).unwrap();
    let err = f.client.withdraw(&f.env, &lock_id, &preimage).unwrap_err();
    assert_eq!(err, HTLCError::AlreadyWithdrawn);
    assert_eq!(err.code(), 4);
}

#[test]
fn refund_after_withdraw_panics() {
    let mut f = setup();
    let amount = 444_i128;
    let timelock = 2_000_u64;
    let preimage = [111u8];
    let hashlock = digest(&f.env, &preimage);

    let lock_id = f.lock(amount, hashlock, timelock);
    f.client.withdraw(&f.env, &lock_id, &preimage).unwrap();
    f.env.ledger().set_timestamp(2_100);
    let err = f.client.refund(&f.env, &lock_id).unwrap_err();
    assert_eq!(err, HTLCError::AlreadyWithdrawn);
    assert_eq!(err.code(), 4);
}

#[test]
fn lock_id_is_digest_of_hashlock_and_big_endian_time() {
    let mut f = setup();
    let hashlock = digest(&f.env, &[5u8, 6]);
    let lock_id = f.lock(10, hashlock, 5_000);
    let mut input = hashlock.to_vec();
    input.extend_from_slice(&1_000u64.to_be_bytes());
    assert_eq!(lock_id, digest(&f.env, &input));
    assert_ne!(lock_id, hashlock);
}

#[test]
fn lock_reports_deposit_and_event() {
    let f = setup();
    let mut client = HTLCContract::new();
    let hashlock = digest(&f.env, &[3u8]);
    let r = client.lock(&f.env, f.sender, f.receiver, f.token, 42, hashlock, 1_001).unwrap();
    assert_eq!(
        r.deposit,
        Transfer { token: f.token, from: Party::Address(f.sender), to: Party::Contract, amount: 42 }
    );
    assert_eq!(r.event, Locked { lock_id: r.lock_id, amount: 42, timelock: 1_001 });
}

#[test]
fn lock_refuses_non_positive_amount_and_past_deadline() {
    let mut f = setup();
    let hashlock = digest(&f.env, &[1u8]);
    let sender = f.sender;
    let receiver = f.receiver;
    let token = f.token;
    assert_eq!(
        f.client.lock(&f.env, sender, receiver, token, 0, hashlock, 2_000),
        Err(LockError::NonPositiveAmount)
    );
    assert_eq!(
        f.client.lock(&f.env, sender, receiver, token, -5, hashlock, 2_000),
        Err(LockError::NonPositiveAmount)
    );
    assert_eq!(
        f.client.lock(&f.env, sender, receiver, token, 5, hashlock, 1_000),
        Err(LockError::TimelockNotInFuture)
    );
    // nothing was stored under the id these requests would have named
    let mut input = hashlock.to_vec();
    input.extend_from_slice(&1_000u64.to_be_bytes());
    let id = digest(&f.env, &input);
    assert_eq!(f.client.get_lock(&id), Err(HTLCError::LockNotFound));
}

#[test]
fn get_lock_of_unknown_id_is_lock_not_found() {
    let f = setup();
    let err = f.client.get_lock(&[0u8; 32]).unwrap_err();
    assert_eq!(err, HTLCError::LockNotFound);
    assert_eq!(err.code(), 1);
}

#[test]
fn withdraw_just_before_deadline_and_refund_at_deadline() {
    let mut f = setup();
    let preimage = [42u8; 5];
    let hashlock = digest(&f.env, &preimage);
    let id1 = f.lock(100, hashlock, 1_100);
    f.env.ledger().set_timestamp(1_099);
    assert!(f.client.withdraw(&f.env, &id1, &preimage).is_ok());

    f.env.ledger().set_timestamp(1_000);
    let hashlock2 = digest(&f.env, &[43u8]);
    let id2 = f.lock(100, hashlock2, 1_100);
    f.env.ledger().set_timestamp(1_100);
    assert_eq!(f.client.refund(&f.env, &id2).unwrap().event, Refunded { lock_id: id2 });
}

#[test]
fn withdraw_after_refund_is_already_refunded() {
    let mut f = setup();
    let preimage = [8u8];
    let hashlock = digest(&f.env, &preimage);
    let id = f.lock(100, hashlock, 1_100);
    f.env.ledger().set_timestamp(1_200);
    f.client.refund(&f.env, &id).unwrap();
    let err = f.client.withdraw(&f.env, &id, &preimage).unwrap_err();
    assert_eq!(err, HTLCError::AlreadyRefunded);
    assert_eq!(err.code(), 5);
    assert_eq!(f.client.refund(&f.env, &id).unwrap_err(), HTLCError::AlreadyRefunded);
}

#[test]
fn withdraw_event_publishes_preimage() {
    let mut f = setup();
    let preimage = [1u8, 1, 2, 3, 5, 8];
    let hashlock = digest(&f.env, &preimage);
    let id = f.lock(100, hashlock, 2_000);
    let w = f.client.withdraw(&f.env, &id, &preimage).unwrap();
    assert_eq!(w.event.lock_id, id);
    assert_eq!(w.event.preimage, preimage.to_vec());
    assert_eq!(
        w.payout,
        Transfer { token: f.token, from: Party::Contract, to: Party::Address(f.receiver), amount: 100 }
    );
}

#[test]
fn relocking_same_hashlock_in_same_ledger_replaces_entry() {
    let mut f = setup();
    let hashlock = digest(&f.env, &[4u8]);
    let id1 = f.lock(100, hashlock, 2_000);
    let id2 = f.lock(300, hashlock, 3_000);
    assert_eq!(id1, id2);
    let entry = f.client.get_lock(&id1).unwrap();
    assert_eq!(entry.amount, 300);
    assert_eq!(entry.timelock, 3_000);
}

#[test]
fn operations_touch_only_their_entry() {
    let mut f = setup();
    let p1 = [1u8];
    let p2 = [2u8];
    let h1 = digest(&f.env, &p1);
    let h2 = digest(&f.env, &p2);
    let id1 = f.lock(10, h1, 2_000);
    let id2 = f.lock(20, h2, 2_000);
    f.client.withdraw(&f.env, &id1, &p1).unwrap();
    let e2 = f.client.get_lock(&id2).unwrap();
    assert!(!e2.withdrawn && !e2.refunded);
    assert_eq!(e2.amount, 20);
}

#[test]
fn timed_operations_without_host() {
    let mut c = HTLCContract::new();
    let hashlock = [9u8; 32];
    let id = [1u8; 32];
    let r = c.lock_at(10, id, account(1), account(2), account(3), 50, hashlock, 20).unwrap();
    assert_eq!(r.lock_id, id);
    assert_eq!(c.withdraw_at(15, &id, &[8u8; 32]), Err(HTLCError::InvalidPreimage));
    assert_eq!(c.refund_at(19, &id), Err(HTLCError::NotYetExpired));
    let t = c.withdraw_at(19, &id, &hashlock).unwrap();
    assert_eq!(t.to, Party::Address(account(2)));
    assert_eq!(c.refund_at(25, &id), Err(HTLCError::AlreadyWithdrawn));
}

#[test]
fn entry_rules_decide_exits() {
    let e = LockEntry {
        sender: account(1),
        receiver: account(2),
        token: account(3),
        amount: 7,
        hashlock: [5u8; 32],
        timelock: 100,
        withdrawn: false,
        refunded: false,
    };
    let (w, t) = withdraw_entry(&e, &[5u8; 32], 99).unwrap();
    assert!(w.withdrawn && !w.refunded);
    assert_eq!(t.amount, 7);
    assert_eq!(refund_entry(&e, 99), Err(HTLCError::NotYetExpired));
    let (r, t2) = refund_entry(&e, 100).unwrap();
    assert!(r.refunded && !r.withdrawn);
    assert_eq!(t2.to, Party::Address(account(1)));
    assert_eq!(withdraw_entry(&e, &[5u8; 32], 100), Err(HTLCError::LockExpired));
    assert_eq!(withdraw_entry(&r, &[5u8; 32], 10), Err(HTLCError::AlreadyRefunded));
}

#[test]
fn error_codes_match_contract_numbers() {
    let all = [
        HTLCError::LockNotFound,
        HTLCError::InvalidPreimage,
        HTLCError::LockExpired,
        HTLCError::AlreadyWithdrawn,
        HTLCError::AlreadyRefunded,
        HTLCError::NotYetExpired,
        HTLCError::Unauthorized,
    ];
    for (i, e) in all.iter().enumerate() {
        assert_eq!(e.code(), i as u32 + 1);
    }
}

#[test]
fn open_lock_builds_fresh_entry_or_refuses() {
    let e = open_lock(account(1), account(2), account(3), 10, [4u8; 32], 11, 10).unwrap();
    assert!(!e.withdrawn && !e.refunded);
    assert_eq!((e.amount, e.timelock, e.hashlock), (10, 11, [4u8; 32]));
    assert_eq!(
        deposit_transfer(&e),
        Transfer { token: account(3), from: Party::Address(account(1)), to: Party::Contract, amount: 10 }
    );
    assert_eq!(
        open_lock(account(1), account(2), account(3), 10, [4u8; 32], 10, 10),
        Err(LockError::TimelockNotInFuture)
    );
    assert_eq!(
        open_lock(account(1), account(2), account(3), 0, [4u8; 32], 5, 10),
        Err(LockError::NonPositiveAmount)
    );
}

#[test]
fn withdraw_with_preimage_hashes_the_preimage() {
    let env = new_env();
    let preimage = [10u8, 20, 30];
    let e = open_lock(account(1), account(2), account(3), 10, digest(&env, &preimage), 50, 0).unwrap();
    let (settled, payout) = withdraw_with_preimage(&env, &e, &preimage, 49).unwrap();
    assert!(settled.withdrawn);
    assert_eq!(payout.to, Party::Address(account(2)));
    // the raw preimage is not the hashlock: a digest that handed back its input would fail here
    let raw = open_lock(account(1), account(2), account(3), 10, [0u8; 32], 50, 0).unwrap();
    assert_eq!(withdraw_with_preimage(&env, &raw, &[0u8; 32], 1), Err(HTLCError::InvalidPreimage));
}

#[test]
fn lock_id_for_matches_host_digest() {
    let env = new_env();
    let h = [3u8; 32];
    let mut input = h.to_vec();
    input.extend_from_slice(&0x0102_0304_0506_0708u64.to_be_bytes());
    assert_eq!(lock_id_for(&env, &h, 0x0102_0304_0506_0708), digest(&env, &input));
}
