//! The rules of a single hashed time-locked escrow entry: when a lock
//! request is accepted, how its id is derived, and when the escrowed amount
//! may go to the receiver (the preimage is revealed before the deadline) or
//! back to the sender (the deadline has passed).

use vstd::prelude::*;
use soroban_sdk::Env;
use crate::types::{Addr, Party, Transfer};
use crate::host::{sha256, sha256_digest};

verus! {

/// Why a withdraw, refund or lookup is refused.
#[derive(Clone, Copy, Debug, PartialEq, Eq)]
pub enum HTLCError {
    LockNotFound,
    InvalidPreimage,
    LockExpired,
    AlreadyWithdrawn,
    AlreadyRefunded,
    NotYetExpired,
    Unauthorized,
}

/// The contract error number of each `HTLCError`.
pub open spec fn error_code(e: HTLCError) -> u32 {
    match e {
        HTLCError::LockNotFound => 1,
        HTLCError::InvalidPreimage => 2,
        HTLCError::LockExpired => 3,
        HTLCError::AlreadyWithdrawn => 4,
        HTLCError::AlreadyRefunded => 5,
        HTLCError::NotYetExpired => 6,
        HTLCError::Unauthorized => 7,
    }
}

impl HTLCError {
    /// The number under which the contract reports this error.
    pub fn code(&self) -> (c: u32)
        ensures
            c == error_code(*self),
    {
        match self {
            HTLCError::LockNotFound => 1,
            HTLCError::InvalidPreimage => 2,
            HTLCError::LockExpired => 3,
            HTLCError::AlreadyWithdrawn => 4,
            HTLCError::AlreadyRefunded => 5,
            HTLCError::NotYetExpired => 6,
            HTLCError::Unauthorized => 7,
        }
    }
}

/// Why a lock request is refused.
#[derive(Clone, Copy, Debug, PartialEq, Eq)]
pub enum LockError {
    /// The amount is zero or negative.
    NonPositiveAmount,
    /// The deadline is not after the current ledger time.
    TimelockNotInFuture,
}

/// One escrowed amount and its state.
#[derive(Clone, Copy, Debug, PartialEq, Eq)]
pub struct LockEntry {
    pub sender: Addr,
    pub receiver: Addr,
    pub token: Addr,
    pub amount: i128,
    pub hashlock: [u8; 32],
    pub timelock: u64,
    pub withdrawn: bool,
    pub refunded: bool,
}

/// Event of `lock`.
#[derive(Clone, Copy, Debug, PartialEq, Eq)]
pub struct Locked {
    pub lock_id: [u8; 32],
    pub amount: i128,
    pub timelock: u64,
}

/// Event of `withdraw`: it publishes the preimage.
#[derive(Clone, Debug, PartialEq, Eq)]
pub struct Withdrawn {
    pub lock_id: [u8; 32],
    pub preimage: Vec<u8>,
}

/// Event of `refund`.
#[derive(Clone, Copy, Debug, PartialEq, Eq)]
pub struct Refunded {
    pub lock_id: [u8; 32],
}

/// The big-endian encoding of `n` in eight bytes.
pub open spec fn u64_be_bytes(n: u64) -> Seq<u8> {
    Seq::new(8, |i: int| ((n >> ((56 - 8 * i) as u64)) & 0xff) as u8)
}

/// What is hashed to name a lock: the hashlock, then the ledger time in
/// big-endian order.
pub open spec fn lock_id_preimage(hashlock: Seq<u8>, now: u64) -> Seq<u8> {
    hashlock + u64_be_bytes(now)
}

/// The id of a lock made with `hashlock` at ledger time `now`.
pub open spec fn lock_id_spec(hashlock: Seq<u8>, now: u64) -> Seq<u8> {
    sha256_digest(lock_id_preimage(hashlock, now))
}

/// Why a lock request for `amount` until `timelock`, made at `now`, is
/// refused, if it is.
pub open spec fn lock_request_error(amount: i128, timelock: u64, now: u64) -> Option<LockError> {
    if amount <= 0 {
        Some(LockError::NonPositiveAmount)
    } else if timelock <= now {
        Some(LockError::TimelockNotInFuture)
    } else {
        None
    }
}

/// Why a withdraw of `e` with a preimage whose digest is `digest`, at
/// `now`, is refused, if it is. The checks come in this order.
pub open spec fn withdraw_error(e: LockEntry, digest: Seq<u8>, now: u64) -> Option<HTLCError> {
    if e.withdrawn {
        Some(HTLCError::AlreadyWithdrawn)
    } else if e.refunded {
        Some(HTLCError::AlreadyRefunded)
    } else if digest != e.hashlock@ {
        Some(HTLCError::InvalidPreimage)
    } else if now >= e.timelock {
        Some(HTLCError::LockExpired)
    } else {
        None
    }
}

/// Why a refund of `e` at `now` is refused, if it is.
pub open spec fn refund_error(e: LockEntry, now: u64) -> Option<HTLCError> {
    if e.withdrawn {
        Some(HTLCError::AlreadyWithdrawn)
    } else if e.refunded {
        Some(HTLCError::AlreadyRefunded)
    } else if now < e.timelock {
        Some(HTLCError::NotYetExpired)
    } else {
        None
    }
}

/// A fresh entry for a lock request.
pub open spec fn open_entry(
    sender: Addr,
    receiver: Addr,
    token: Addr,
    amount: i128,
    hashlock: [u8; 32],
    timelock: u64,
) -> LockEntry {
    LockEntry { sender, receiver, token, amount, hashlock, timelock, withdrawn: false, refunded: false }
}

/// `e` after a withdraw.
pub open spec fn mark_withdrawn(e: LockEntry) -> LockEntry {
    LockEntry { withdrawn: true, ..e }
}

/// `e` after a refund.
pub open spec fn mark_refunded(e: LockEntry) -> LockEntry {
    LockEntry { refunded: true, ..e }
}

/// The transfer that escrows `e`'s amount: sender to contract.
pub open spec fn deposit_of(e: LockEntry) -> Transfer {
    Transfer { token: e.token, from: Party::Address(e.sender), to: Party::Contract, amount: e.amount }
}

/// The transfer of a withdraw: contract to receiver.
pub open spec fn payout_of(e: LockEntry) -> Transfer {
    Transfer { token: e.token, from: Party::Contract, to: Party::Address(e.receiver), amount: e.amount }
}

/// The transfer of a refund: contract back to sender.
pub open spec fn refund_of(e: LockEntry) -> Transfer {
    Transfer { token: e.token, from: Party::Contract, to: Party::Address(e.sender), amount: e.amount }
}

/// A withdraw and a refund of one entry are never both accepted at the same
/// ledger time.
pub proof fn withdraw_and_refund_exclusive(e: LockEntry, digest: Seq<u8>, now: u64)
    ensures
        !(withdraw_error(e, digest, now) is None && refund_error(e, now) is None),
{
}

/// An entry that is neither withdrawn nor refunded has, at every ledger
/// time, exactly one way out: before the deadline a withdraw with the
/// preimage of its hashlock is accepted and a refund is not; from the
/// deadline on, the refund is accepted and no withdraw is.
pub proof fn open_entry_has_one_exit(e: LockEntry, now: u64)
    requires
        !e.withdrawn,
        !e.refunded,
    ensures
        now < e.timelock ==> withdraw_error(e, e.hashlock@, now) is None && refund_error(e, now) == Some(HTLCError::NotYetExpired),
        now >= e.timelock ==> refund_error(e, now) is None && withdraw_error(e, e.hashlock@, now) == Some(HTLCError::LockExpired),
{
}

/// Settlement is final: once an entry is withdrawn, every later withdraw or
/// refund of it is refused with `AlreadyWithdrawn`; once refunded, with
/// `AlreadyRefunded`.
pub proof fn settlement_is_final(e: LockEntry, digest: Seq<u8>, now: u64)
    ensures
        withdraw_error(mark_withdrawn(e), digest, now) == Some(HTLCError::AlreadyWithdrawn),
        refund_error(mark_withdrawn(e), now) == Some(HTLCError::AlreadyWithdrawn),
        !e.withdrawn ==> withdraw_error(mark_refunded(e), digest, now) == Some(HTLCError::AlreadyRefunded),
        !e.withdrawn ==> refund_error(mark_refunded(e), now) == Some(HTLCError::AlreadyRefunded),
{
}

/// The contract reports its errors under the numbers 1 to 7, in the order
/// of the declaration, each under its own number.
pub proof fn error_numbers(a: HTLCError, b: HTLCError)
    ensures
        error_code(HTLCError::LockNotFound) == 1,
        error_code(HTLCError::InvalidPreimage) == 2,
        error_code(HTLCError::LockExpired) == 3,
        error_code(HTLCError::AlreadyWithdrawn) == 4,
        error_code(HTLCError::AlreadyRefunded) == 5,
        error_code(HTLCError::NotYetExpired) == 6,
        error_code(HTLCError::Unauthorized) == 7,
        error_code(a) == error_code(b) ==> a == b,
{
}

/// A lock request is accepted exactly when its amount is positive and its
/// deadline lies after the ledger time; a non-positive amount is reported
/// first, then a deadline that is not in the future.
pub proof fn lock_request_decision(amount: i128, timelock: u64, now: u64)
    ensures
        lock_request_error(amount, timelock, now) is None <==> (amount > 0 && timelock > now),
        amount <= 0 ==> lock_request_error(amount, timelock, now) == Some(LockError::NonPositiveAmount),
        amount > 0 && timelock <= now ==> lock_request_error(amount, timelock, now) == Some(
            LockError::TimelockNotInFuture,
        ),
{
}

/// A withdraw is accepted exactly when the entry is neither withdrawn nor
/// refunded, the preimage's digest is the hashlock, and the ledger time is
/// before the deadline. Otherwise the error is that of the first check that
/// fails, in this order: withdrawn, refunded, wrong preimage (at any ledger
/// time), deadline reached.
pub proof fn withdraw_decision(e: LockEntry, digest: Seq<u8>, now: u64)
    ensures
        withdraw_error(e, digest, now) is None <==> (!e.withdrawn && !e.refunded && digest == e.hashlock@
            && now < e.timelock),
        e.withdrawn ==> withdraw_error(e, digest, now) == Some(HTLCError::AlreadyWithdrawn),
        !e.withdrawn && e.refunded ==> withdraw_error(e, digest, now) == Some(HTLCError::AlreadyRefunded),
        !e.withdrawn && !e.refunded && digest != e.hashlock@ ==> withdraw_error(e, digest, now) == Some(
            HTLCError::InvalidPreimage,
        ),
        !e.withdrawn && !e.refunded && digest == e.hashlock@ && now >= e.timelock ==> withdraw_error(
            e,
            digest,
            now,
        ) == Some(HTLCError::LockExpired),
{
}

/// A refund is accepted exactly when the entry is neither withdrawn nor
/// refunded and the ledger time has reached the deadline. Otherwise the
/// error is, in this order: withdrawn, refunded, deadline not reached.
pub proof fn refund_decision(e: LockEntry, now: u64)
    ensures
        refund_error(e, now) is None <==> (!e.withdrawn && !e.refunded && now >= e.timelock),
        e.withdrawn ==> refund_error(e, now) == Some(HTLCError::AlreadyWithdrawn),
        !e.withdrawn && e.refunded ==> refund_error(e, now) == Some(HTLCError::AlreadyRefunded),
        !e.withdrawn && !e.refunded && now < e.timelock ==> refund_error(e, now) == Some(HTLCError::NotYetExpired),
{
}

/// The transfers of an entry all move its amount in its token: the deposit
/// from the sender into the contract, the withdraw payout from the contract
/// to the receiver, and the refund from the contract back to the sender,
/// the deposit reversed.
pub proof fn entry_transfers(e: LockEntry)
    ensures
        deposit_of(e).token == e.token,
        deposit_of(e).from == Party::Address(e.sender),
        deposit_of(e).to == Party::Contract,
        deposit_of(e).amount == e.amount,
        payout_of(e).token == e.token,
        payout_of(e).from == Party::Contract,
        payout_of(e).to == Party::Address(e.receiver),
        payout_of(e).amount == e.amount,
        refund_of(e).token == e.token,
        refund_of(e).from == Party::Contract,
        refund_of(e).to == Party::Address(e.sender),
        refund_of(e).amount == e.amount,
        refund_of(e).token == deposit_of(e).token && refund_of(e).from == deposit_of(e).to
            && refund_of(e).to == deposit_of(e).from && refund_of(e).amount == deposit_of(e).amount,
{
}

/// A fresh entry holds the request as made and is neither withdrawn nor
/// refunded; settling an entry sets only its own flag and keeps every other
/// field.
pub proof fn entry_states(
    sender: Addr,
    receiver: Addr,
    token: Addr,
    amount: i128,
    hashlock: [u8; 32],
    timelock: u64,
    e: LockEntry,
)
    ensures
        ({
            let f = open_entry(sender, receiver, token, amount, hashlock, timelock);
            f.sender == sender && f.receiver == receiver && f.token == token && f.amount == amount
                && f.hashlock == hashlock && f.timelock == timelock && !f.withdrawn && !f.refunded
        }),
        ({
            let w = mark_withdrawn(e);
            w.sender == e.sender && w.receiver == e.receiver && w.token == e.token && w.amount == e.amount
                && w.hashlock == e.hashlock && w.timelock == e.timelock && w.withdrawn && w.refunded == e.refunded
        }),
        ({
            let r = mark_refunded(e);
            r.sender == e.sender && r.receiver == e.receiver && r.token == e.token && r.amount == e.amount
                && r.hashlock == e.hashlock && r.timelock == e.timelock && r.refunded && r.withdrawn == e.withdrawn
        }),
{
}

/// What is hashed to name a lock is the 32-byte hashlock followed by the
/// ledger time in eight bytes, most significant byte first.
pub proof fn lock_id_preimage_layout(hashlock: Seq<u8>, now: u64)
    requires
        hashlock.len() == 32,
    ensures
        lock_id_preimage(hashlock, now).len() == 40,
        lock_id_preimage(hashlock, now).subrange(0, 32) == hashlock,
        lock_id_preimage(hashlock, now)[32] == (now / 0x100000000000000) % 256,
        lock_id_preimage(hashlock, now)[33] == (now / 0x1000000000000) % 256,
        lock_id_preimage(hashlock, now)[34] == (now / 0x10000000000) % 256,
        lock_id_preimage(hashlock, now)[35] == (now / 0x100000000) % 256,
        lock_id_preimage(hashlock, now)[36] == (now / 0x1000000) % 256,
        lock_id_preimage(hashlock, now)[37] == (now / 0x10000) % 256,
        lock_id_preimage(hashlock, now)[38] == (now / 0x100) % 256,
        lock_id_preimage(hashlock, now)[39] == now % 256,
{
    let p = lock_id_preimage(hashlock, now);
    assert(p.subrange(0, 32) =~= hashlock);
    assert(((now >> 56u64) & 0xff) == (now / 0x100000000000000) % 256) by (bit_vector);
    assert(((now >> 48u64) & 0xff) == (now / 0x1000000000000) % 256) by (bit_vector);
    assert(((now >> 40u64) & 0xff) == (now / 0x10000000000) % 256) by (bit_vector);
    assert(((now >> 32u64) & 0xff) == (now / 0x100000000) % 256) by (bit_vector);
    assert(((now >> 24u64) & 0xff) == (now / 0x1000000) % 256) by (bit_vector);
    assert(((now >> 16u64) & 0xff) == (now / 0x10000) % 256) by (bit_vector);
    assert(((now >> 8u64) & 0xff) == (now / 0x100) % 256) by (bit_vector);
    assert(((now >> 0u64) & 0xff) == now % 256) by (bit_vector);
    assert(p[32] == u64_be_bytes(now)[0]);
    assert(p[39] == u64_be_bytes(now)[7]);
}

/// Opens an entry for a lock request made at `now`: refused when the
/// amount is not positive or the deadline is not after `now`. The request
/// must be authorized by `sender`, which the caller checks with the host
/// first.
pub fn open_lock(
    sender: Addr,
    receiver: Addr,
    token: Addr,
    amount: i128,
    hashlock: [u8; 32],
    timelock: u64,
    now: u64,
) -> (r: Result<LockEntry, LockError>)
    ensures
        r is Ok <==> lock_request_error(amount, timelock, now) is None,
        r matches Err(e) ==> lock_request_error(amount, timelock, now) == Some(e),
        r matches Ok(e) ==> e == open_entry(sender, receiver, token, amount, hashlock, timelock),
{
    if amount <= 0 {
        Err(LockError::NonPositiveAmount)
    } else if timelock <= now {
        Err(LockError::TimelockNotInFuture)
    } else {
        Ok(LockEntry { sender, receiver, token, amount, hashlock, timelock, withdrawn: false, refunded: false })
    }
}

/// The transfer that escrows `entry`'s amount: from the sender to the
/// contract.
pub fn deposit_transfer(entry: &LockEntry) -> (t: Transfer)
    ensures
        t == deposit_of(*entry),
{
    Transfer { token: entry.token, from: Party::Address(entry.sender), to: Party::Contract, amount: entry.amount }
}

/// Whether two digests are equal.
pub fn same_digest(a: &[u8; 32], b: &[u8; 32]) -> (r: bool)
    ensures
        r == (a@ == b@),
{
    let mut i: usize = 0;
    while i < 32
        invariant
            i <= 32,
            a@.len() == 32,
            b@.len() == 32,
            forall|j: int| 0 <= j < i ==> a@[j] == b@[j],
        decreases 32 - i,
    {
        if a[i] != b[i] {
            assert(a@[i as int] != b@[i as int]);
            return false;
        }
        i = i + 1;
    }
    assert(a@ =~= b@);
    true
}

/// The bytes hashed to name a lock made with `hashlock` at `now`.
pub fn lock_id_input(hashlock: &[u8; 32], now: u64) -> (input: Vec<u8>)
    ensures
        input@ == lock_id_preimage(hashlock@, now),
{
    let mut input: Vec<u8> = Vec::new();
    let mut i: usize = 0;
    while i < 32
        invariant
            i <= 32,
            hashlock@.len() == 32,
            input@ =~= hashlock@.subrange(0, i as int),
        decreases 32 - i,
    {
        input.push(hashlock[i]);
        i = i + 1;
    }
    let mut k: usize = 0;
    while k < 8
        invariant
            k <= 8,
            hashlock@.len() == 32,
            input@ =~= hashlock@ + u64_be_bytes(now).subrange(0, k as int),
        decreases 8 - k,
    {
        let shift: u64 = 56 - 8 * (k as u64);
        let byte: u8 = ((now >> shift) & 0xff) as u8;
        assert(byte == u64_be_bytes(now)[k as int]);
        input.push(byte);
        k = k + 1;
    }
    assert(u64_be_bytes(now).subrange(0, 8) =~= u64_be_bytes(now));
    input
}

/// The id of a lock made with `hashlock` at ledger time `now`: the SHA-256
/// digest of the hashlock followed by the big-endian time.
pub fn lock_id_for(env: &Env, hashlock: &[u8; 32], now: u64) -> (id: [u8; 32])
    ensures
        id@ == lock_id_spec(hashlock@, now),
{
    let input = lock_id_input(hashlock, now);
    sha256(env, input.as_slice())
}

/// Decides a withdraw of `entry` at `now`, given the digest of the
/// revealed preimage. On success: the entry marked withdrawn and the
/// payout to the receiver.
pub fn withdraw_entry(entry: &LockEntry, preimage_digest: &[u8; 32], now: u64) -> (r: Result<(LockEntry, Transfer), HTLCError>)
    ensures
        r is Ok <==> withdraw_error(*entry, preimage_digest@, now) is None,
        r matches Err(e) ==> withdraw_error(*entry, preimage_digest@, now) == Some(e),
        r matches Ok(p) ==> p.0 == mark_withdrawn(*entry) && p.1 == payout_of(*entry),
{
    if entry.withdrawn {
        return Err(HTLCError::AlreadyWithdrawn);
    }
    if entry.refunded {
        return Err(HTLCError::AlreadyRefunded);
    }
    if !same_digest(preimage_digest, &entry.hashlock) {
        return Err(HTLCError::InvalidPreimage);
    }
    if now >= entry.timelock {
        return Err(HTLCError::LockExpired);
    }
    let settled = LockEntry { withdrawn: true, ..*entry };
    let payout = Transfer {
        token: entry.token,
        from: Party::Contract,
        to: Party::Address(entry.receiver),
        amount: entry.amount,
    };
    Ok((settled, payout))
}

/// Decides a withdraw of `entry` at `now` with the revealed `preimage`:
/// hashes it with SHA-256 and decides as `withdraw_entry`.
pub fn withdraw_with_preimage(env: &Env, entry: &LockEntry, preimage: &[u8], now: u64) -> (r: Result<(LockEntry, Transfer), HTLCError>)
    requires
        preimage@.len() <= u32::MAX,
    ensures
        r is Ok <==> withdraw_error(*entry, sha256_digest(preimage@), now) is None,
        r matches Err(e) ==> withdraw_error(*entry, sha256_digest(preimage@), now) == Some(e),
        r matches Ok(p) ==> p.0 == mark_withdrawn(*entry) && p.1 == payout_of(*entry),
{
    let digest = sha256(env, preimage);
    withdraw_entry(entry, &digest, now)
}

/// Decides a refund of `entry` at `now`. On success: the entry marked
/// refunded and the transfer back to the sender.
pub fn refund_entry(entry: &LockEntry, now: u64) -> (r: Result<(LockEntry, Transfer), HTLCError>)
    ensures
        r is Ok <==> refund_error(*entry, now) is None,
        r matches Err(e) ==> refund_error(*entry, now) == Some(e),
        r matches Ok(p) ==> p.0 == mark_refunded(*entry) && p.1 == refund_of(*entry),
{
    if entry.withdrawn {
        return Err(HTLCError::AlreadyWithdrawn);
    }
    if entry.refunded {
        return Err(HTLCError::AlreadyRefunded);
    }
    if now < entry.timelock {
        return Err(HTLCError::NotYetExpired);
    }
    let settled = LockEntry { refunded: true, ..*entry };
    let payout = Transfer {
        token: entry.token,
        from: Party::Contract,
        to: Party::Address(entry.sender),
        amount: entry.amount,
    };
    Ok((settled, payout))
}

} // verus!
