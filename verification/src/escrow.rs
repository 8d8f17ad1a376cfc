//! A model of the HTLC contract over its persistent storage: the table from
//! lock id to `LockEntry` that the host keeps for the deployed contract is
//! modelled here as a verified in-memory table. Each call reads the ledger
//! time from the host, decides by the rules of `htlc`, and updates the
//! table. The laws of this module hold of that model; the deployed entry
//! points store one entry per id in host storage and decide by the same
//! `htlc` functions. The tests run the contract's scenarios on the model.

use vstd::prelude::*;
use soroban_sdk::Env;
use crate::types::{Addr, Party, Transfer};
use crate::host::{ledger_timestamp, sha256_digest};
use crate::htlc::{
    open_lock, deposit_of, deposit_transfer, lock_id_for, lock_id_spec, lock_request_error, mark_refunded,
    mark_withdrawn, open_entry, payout_of, refund_entry, refund_error, refund_of, same_digest,
    withdraw_entry, withdraw_error, withdraw_with_preimage, lock_request_decision, withdraw_decision,
    refund_decision, entry_transfers, HTLCError, LockEntry, LockError, Locked, Refunded, Withdrawn,
};

verus! {

/// The lock table as a map from lock id to entry.
pub type LockMap = Map<Seq<u8>, LockEntry>;

/// What `get_lock` answers for `id`.
pub open spec fn lookup(m: LockMap, id: Seq<u8>) -> Result<LockEntry, HTLCError> {
    if m.dom().contains(id) {
        Ok(m[id])
    } else {
        Err(HTLCError::LockNotFound)
    }
}

/// No entry has been both withdrawn and refunded.
pub open spec fn settlement_consistent(m: LockMap) -> bool {
    forall|id: Seq<u8>| #[trigger] m.dom().contains(id) ==> !(m[id].withdrawn && m[id].refunded)
}

/// A lock request at `now`, naming the new entry `id`: refused with the
/// error of `lock_request_error`, leaving the table as it was; or accepted,
/// storing `entry` under `id` (replacing whatever was there) and escrowing
/// its amount.
pub open spec fn lock_effect(
    before: LockMap,
    after: LockMap,
    now: u64,
    id: Seq<u8>,
    entry: LockEntry,
    r: Result<Transfer, LockError>,
) -> bool {
    match r {
        Err(e) => after == before && lock_request_error(entry.amount, entry.timelock, now) == Some(e),
        Ok(t) => {
            &&& lock_request_error(entry.amount, entry.timelock, now) is None
            &&& after == before.insert(id, entry)
            &&& t == deposit_of(entry)
        },
    }
}

/// Why a withdraw of `id` at `now` with a preimage of digest `digest` is
/// refused, if it is.
pub open spec fn withdraw_failure(m: LockMap, id: Seq<u8>, digest: Seq<u8>, now: u64) -> Option<HTLCError> {
    if !m.dom().contains(id) {
        Some(HTLCError::LockNotFound)
    } else {
        withdraw_error(m[id], digest, now)
    }
}

/// Why a refund of `id` at `now` is refused, if it is.
pub open spec fn refund_failure(m: LockMap, id: Seq<u8>, now: u64) -> Option<HTLCError> {
    if !m.dom().contains(id) {
        Some(HTLCError::LockNotFound)
    } else {
        refund_error(m[id], now)
    }
}

/// A withdraw: refused, leaving the table as it was; or accepted, marking
/// the entry withdrawn and paying its amount to the receiver.
pub open spec fn withdraw_effect(
    before: LockMap,
    after: LockMap,
    id: Seq<u8>,
    digest: Seq<u8>,
    now: u64,
    r: Result<Transfer, HTLCError>,
) -> bool {
    match r {
        Err(e) => after == before && withdraw_failure(before, id, digest, now) == Some(e),
        Ok(t) => {
            &&& withdraw_failure(before, id, digest, now) is None
            &&& after == before.insert(id, mark_withdrawn(before[id]))
            &&& t == payout_of(before[id])
        },
    }
}

/// A refund: refused, leaving the table as it was; or accepted, marking the
/// entry refunded and paying its amount back to the sender.
pub open spec fn refund_effect(
    before: LockMap,
    after: LockMap,
    id: Seq<u8>,
    now: u64,
    r: Result<Transfer, HTLCError>,
) -> bool {
    match r {
        Err(e) => after == before && refund_failure(before, id, now) == Some(e),
        Ok(t) => {
            &&& refund_failure(before, id, now) is None
            &&& after == before.insert(id, mark_refunded(before[id]))
            &&& t == refund_of(before[id])
        },
    }
}

/// What a successful lock stores is what `get_lock` then returns under the
/// new id; every other id answers as before.
pub proof fn lock_then_get(before: LockMap, after: LockMap, now: u64, id: Seq<u8>, entry: LockEntry, t: Transfer)
    requires
        lock_effect(before, after, now, id, entry, Ok(t)),
    ensures
        lookup(after, id) == Ok::<LockEntry, HTLCError>(entry),
        forall|other: Seq<u8>| other != id ==> #[trigger] lookup(after, other) == lookup(before, other),
{
}

/// A freshly locked entry can leave the escrow: with the preimage of its
/// hashlock before the deadline by withdraw, from the deadline on by
/// refund.
pub proof fn locked_funds_can_leave(before: LockMap, after: LockMap, now: u64, id: Seq<u8>, entry: LockEntry, t: Transfer, later: u64)
    requires
        lock_effect(before, after, now, id, entry, Ok(t)),
        !entry.withdrawn,
        !entry.refunded,
    ensures
        later < entry.timelock ==> withdraw_failure(after, id, entry.hashlock@, later) is None,
        later >= entry.timelock ==> refund_failure(after, id, later) is None,
{
}

/// An escrowed amount is paid out at most once: after an accepted withdraw
/// every withdraw or refund of the same id is refused with
/// `AlreadyWithdrawn`, and after an accepted refund with `AlreadyRefunded`,
/// until the id is locked again.
pub proof fn paid_out_at_most_once(
    before: LockMap,
    after: LockMap,
    id: Seq<u8>,
    digest: Seq<u8>,
    now: u64,
    t: Transfer,
    digest2: Seq<u8>,
    now2: u64,
)
    ensures
        withdraw_effect(before, after, id, digest, now, Ok(t)) ==> {
            &&& withdraw_failure(after, id, digest2, now2) == Some(HTLCError::AlreadyWithdrawn)
            &&& refund_failure(after, id, now2) == Some(HTLCError::AlreadyWithdrawn)
        },
        refund_effect(before, after, id, now, Ok(t)) ==> {
            &&& withdraw_failure(after, id, digest2, now2) == Some(HTLCError::AlreadyRefunded)
            &&& refund_failure(after, id, now2) == Some(HTLCError::AlreadyRefunded)
        },
{
}

/// One call on the lock table, with the outcome it had.
pub enum TableCall {
    Lock { id: Seq<u8>, entry: LockEntry, now: u64, lock_result: Result<Transfer, LockError> },
    Withdraw { id: Seq<u8>, digest: Seq<u8>, now: u64, result: Result<Transfer, HTLCError> },
    Refund { id: Seq<u8>, now: u64, result: Result<Transfer, HTLCError> },
}

/// `call` took the table from `before` to `after`, as the contracts of
/// `lock_at`, `withdraw_at` and `refund_at` (and of `lock`, `withdraw` and
/// `refund`, at the ledger time they read) describe.
pub open spec fn call_step(before: LockMap, after: LockMap, call: TableCall) -> bool {
    match call {
        TableCall::Lock { id, entry, now, lock_result } => lock_effect(before, after, now, id, entry, lock_result),
        TableCall::Withdraw { id, digest, now, result } => withdraw_effect(before, after, id, digest, now, result),
        TableCall::Refund { id, now, result } => refund_effect(before, after, id, now, result),
    }
}

/// `call` is an accepted withdraw or refund of `id`: it paid the escrowed
/// amount out.
pub open spec fn pays_out(call: TableCall, id: Seq<u8>) -> bool {
    match call {
        TableCall::Lock { .. } => false,
        TableCall::Withdraw { id: i, result, .. } => i == id && result is Ok,
        TableCall::Refund { id: i, result, .. } => i == id && result is Ok,
    }
}

/// `call` is a lock request naming `id`.
pub open spec fn relocks(call: TableCall, id: Seq<u8>) -> bool {
    match call {
        TableCall::Lock { id: i, .. } => i == id,
        _ => false,
    }
}

/// `calls` took the table through `states`, one call per step.
pub open spec fn valid_run(states: Seq<LockMap>, calls: Seq<TableCall>) -> bool {
    &&& states.len() == calls.len() + 1
    &&& forall|i: int| 0 <= i < calls.len() ==> call_step(#[trigger] states[i], states[i + 1], calls[i])
}

/// The entry under `id` is stored and already paid out.
pub open spec fn settled_at(m: LockMap, id: Seq<u8>) -> bool {
    m.dom().contains(id) && (m[id].withdrawn || m[id].refunded)
}

proof fn lemma_settled_persists(states: Seq<LockMap>, calls: Seq<TableCall>, id: Seq<u8>, i: int, j: int)
    requires
        valid_run(states, calls),
        forall|k: int| 0 <= k < calls.len() ==> !relocks(#[trigger] calls[k], id),
        0 <= i <= j < states.len(),
        settled_at(states[i], id),
    ensures
        settled_at(states[j], id),
        states[j][id] == states[i][id],
    decreases j - i,
{
    if j > i {
        lemma_settled_persists(states, calls, id, i, j - 1);
        let before = states[j - 1];
        let after = states[j];
        let c = calls[j - 1];
        assert(call_step(before, after, c));
        assert(!relocks(c, id));
        match c {
            TableCall::Lock { id: k, .. } => {
                assert(k != id);
            },
            TableCall::Withdraw { id: k, digest, now, result } => {
                if k == id {
                    assert(withdraw_failure(before, id, digest, now) is Some);
                }
            },
            TableCall::Refund { id: k, now, result } => {
                if k == id {
                    assert(refund_failure(before, id, now) is Some);
                }
            },
        }
    }
}

/// An escrowed amount is paid out at most once over any run of calls on
/// the table: of all the withdraws and refunds of `id` in the run, at most
/// one is accepted, unless `id` is locked again during the run. If the
/// entry was already paid out when the run starts, none is accepted.
pub proof fn at_most_one_payout_in_any_run(states: Seq<LockMap>, calls: Seq<TableCall>, id: Seq<u8>)
    requires
        valid_run(states, calls),
        forall|k: int| 0 <= k < calls.len() ==> !relocks(#[trigger] calls[k], id),
    ensures
        forall|i: int, j: int|
            0 <= i < j < calls.len() && #[trigger] pays_out(calls[i], id) ==> !#[trigger] pays_out(calls[j], id),
        settled_at(states[0], id) ==> forall|i: int| 0 <= i < calls.len() ==> !#[trigger] pays_out(calls[i], id),
{
    assert forall|i: int, j: int|
        0 <= i < j < calls.len() && #[trigger] pays_out(calls[i], id) implies !#[trigger] pays_out(calls[j], id) by {
        assert(call_step(states[i], states[i + 1], calls[i]));
        assert(settled_at(states[i + 1], id));
        lemma_settled_persists(states, calls, id, i + 1, j);
        assert(call_step(states[j], states[j + 1], calls[j]));
    }
    assert forall|i: int| settled_at(states[0], id) && 0 <= i < calls.len() implies !#[trigger] pays_out(calls[i], id) by {
        lemma_settled_persists(states, calls, id, 0, i);
        assert(call_step(states[i], states[i + 1], calls[i]));
    }
}

/// A lock request is accepted exactly when its amount is positive and its
/// deadline is after the ledger time. An accepted one moves the amount, in
/// the entry's token, from the sender into the contract and stores the
/// entry under the id, open; a refused one changes nothing.
pub proof fn table_lock(
    before: LockMap,
    after: LockMap,
    now: u64,
    id: Seq<u8>,
    entry: LockEntry,
    r: Result<Transfer, LockError>,
)
    requires
        lock_effect(before, after, now, id, entry, r),
    ensures
        r is Ok <==> (entry.amount > 0 && entry.timelock > now),
        entry.amount <= 0 ==> r == Err::<Transfer, LockError>(LockError::NonPositiveAmount),
        entry.amount > 0 && entry.timelock <= now ==> r == Err::<Transfer, LockError>(
            LockError::TimelockNotInFuture,
        ),
        r is Err ==> after == before,
        r matches Ok(t) ==> {
            &&& t.token == entry.token && t.from == Party::Address(entry.sender) && t.to == Party::Contract
            &&& t.amount == entry.amount
            &&& after.dom().contains(id) && after[id] == entry
            &&& forall|k: Seq<u8>| k != id ==> (#[trigger] after.dom().contains(k) <==> before.dom().contains(k))
        },
{
    lock_request_decision(entry.amount, entry.timelock, now);
}

/// A withdraw is accepted exactly when the id is stored, its entry is
/// neither withdrawn nor refunded, the preimage's digest is the hashlock,
/// and the ledger time is before the deadline; a wrong preimage on an open
/// entry is refused with `InvalidPreimage` at any time. An accepted
/// withdraw pays the entry's amount, in its token, from the contract to its
/// receiver and marks that entry withdrawn, keeping its other fields; a
/// refused one changes nothing.
pub proof fn table_withdraw(
    before: LockMap,
    after: LockMap,
    id: Seq<u8>,
    digest: Seq<u8>,
    now: u64,
    r: Result<Transfer, HTLCError>,
)
    requires
        withdraw_effect(before, after, id, digest, now, r),
    ensures
        r is Ok <==> (before.dom().contains(id) && !before[id].withdrawn && !before[id].refunded
            && digest == before[id].hashlock@ && now < before[id].timelock),
        !before.dom().contains(id) ==> r == Err::<Transfer, HTLCError>(HTLCError::LockNotFound),
        before.dom().contains(id) && !before[id].withdrawn && !before[id].refunded && digest
            != before[id].hashlock@ ==> r == Err::<Transfer, HTLCError>(HTLCError::InvalidPreimage),
        r is Err ==> after == before,
        r matches Ok(t) ==> {
            let e = before[id];
            &&& t.token == e.token && t.from == Party::Contract && t.to == Party::Address(e.receiver)
            &&& t.amount == e.amount
            &&& after.dom().contains(id) && after[id].withdrawn && !after[id].refunded
            &&& after[id].amount == e.amount && after[id].token == e.token && after[id].sender == e.sender
            &&& after[id].receiver == e.receiver && after[id].hashlock == e.hashlock
            &&& after[id].timelock == e.timelock
        },
{
    if before.dom().contains(id) {
        withdraw_decision(before[id], digest, now);
        entry_transfers(before[id]);
    }
}

/// A refund is accepted exactly when the id is stored, its entry is
/// neither withdrawn nor refunded, and the ledger time has reached the
/// deadline; before the deadline an open entry is refused with
/// `NotYetExpired`. An accepted refund moves the entry's amount, in its
/// token, from the contract back to the sender (the deposit reversed) and
/// marks that entry refunded, keeping its other fields; a refused one
/// changes nothing.
pub proof fn table_refund(
    before: LockMap,
    after: LockMap,
    id: Seq<u8>,
    now: u64,
    r: Result<Transfer, HTLCError>,
)
    requires
        refund_effect(before, after, id, now, r),
    ensures
        r is Ok <==> (before.dom().contains(id) && !before[id].withdrawn && !before[id].refunded
            && now >= before[id].timelock),
        !before.dom().contains(id) ==> r == Err::<Transfer, HTLCError>(HTLCError::LockNotFound),
        before.dom().contains(id) && !before[id].withdrawn && !before[id].refunded && now < before[id].timelock
            ==> r == Err::<Transfer, HTLCError>(HTLCError::NotYetExpired),
        r is Err ==> after == before,
        r matches Ok(t) ==> {
            let e = before[id];
            &&& t.token == e.token && t.from == Party::Contract && t.to == Party::Address(e.sender)
            &&& t.amount == e.amount
            &&& after.dom().contains(id) && after[id].refunded && !after[id].withdrawn
            &&& after[id].amount == e.amount && after[id].token == e.token && after[id].sender == e.sender
            &&& after[id].receiver == e.receiver && after[id].hashlock == e.hashlock
            &&& after[id].timelock == e.timelock
        },
{
    if before.dom().contains(id) {
        refund_decision(before[id], now);
        entry_transfers(before[id]);
    }
}

/// Withdraws and refunds touch only the entry they name.
pub proof fn settlement_touches_one_entry(
    before: LockMap,
    after: LockMap,
    id: Seq<u8>,
    digest: Seq<u8>,
    now: u64,
    r: Result<Transfer, HTLCError>,
    other: Seq<u8>,
)
    requires
        other != id,
        withdraw_effect(before, after, id, digest, now, r) || refund_effect(before, after, id, now, r),
    ensures
        lookup(after, other) == lookup(before, other),
{
}

/// Every operation keeps the table free of entries that are both withdrawn
/// and refunded.
pub proof fn operations_keep_settlement_consistent(
    before: LockMap,
    after: LockMap,
    id: Seq<u8>,
    entry: LockEntry,
    digest: Seq<u8>,
    now: u64,
    lr: Result<Transfer, LockError>,
    r: Result<Transfer, HTLCError>,
)
    requires
        settlement_consistent(before),
        (lock_effect(before, after, now, id, entry, lr) && !entry.withdrawn && !entry.refunded)
            || withdraw_effect(before, after, id, digest, now, r)
            || refund_effect(before, after, id, now, r),
    ensures
        settlement_consistent(after),
{
    assert forall|k: Seq<u8>| #[trigger] after.dom().contains(k) implies !(after[k].withdrawn && after[k].refunded) by {
        if k != id {
            assert(before.dom().contains(k));
        }
    }
}

/// The outcome of an accepted lock request.
#[derive(Clone, Copy, Debug, PartialEq, Eq)]
pub struct LockReceipt {
    pub lock_id: [u8; 32],
    pub deposit: Transfer,
    pub event: Locked,
}

/// The outcome of an accepted withdraw.
#[derive(Clone, Debug, PartialEq, Eq)]
pub struct Withdrawal {
    pub payout: Transfer,
    pub event: Withdrawn,
}

/// The outcome of an accepted refund.
#[derive(Clone, Copy, Debug, PartialEq, Eq)]
pub struct Refund {
    pub payout: Transfer,
    pub event: Refunded,
}

/// The transfer part of a lock outcome.
pub open spec fn lock_transfer(r: Result<LockReceipt, LockError>) -> Result<Transfer, LockError> {
    match r {
        Ok(x) => Ok(x.deposit),
        Err(e) => Err(e),
    }
}

/// The transfer part of a withdraw outcome.
pub open spec fn withdrawal_transfer(r: Result<Withdrawal, HTLCError>) -> Result<Transfer, HTLCError> {
    match r {
        Ok(x) => Ok(x.payout),
        Err(e) => Err(e),
    }
}

/// The transfer part of a refund outcome.
pub open spec fn refund_transfer(r: Result<Refund, HTLCError>) -> Result<Transfer, HTLCError> {
    match r {
        Ok(x) => Ok(x.payout),
        Err(e) => Err(e),
    }
}

#[derive(Clone, Copy)]
struct Slot {
    id: [u8; 32],
    entry: LockEntry,
}

spec fn has_id(s: Seq<Slot>, id: Seq<u8>) -> bool {
    exists|i: int| 0 <= i < s.len() && #[trigger] s[i].id@ == id
}

spec fn slot_index(s: Seq<Slot>, id: Seq<u8>) -> int {
    choose|i: int| 0 <= i < s.len() && #[trigger] s[i].id@ == id
}

spec fn slots_view(s: Seq<Slot>) -> LockMap {
    Map::new(|id: Seq<u8>| has_id(s, id), |id: Seq<u8>| s[slot_index(s, id)].entry)
}

spec fn distinct_ids(s: Seq<Slot>) -> bool {
    forall|i: int, j: int| 0 <= i < s.len() && 0 <= j < s.len() && i != j ==> s[i].id@ != s[j].id@
}

spec fn slots_consistent(s: Seq<Slot>) -> bool {
    forall|i: int| 0 <= i < s.len() ==> !(#[trigger] s[i].entry.withdrawn && s[i].entry.refunded)
}

proof fn lemma_slot_in_view(s: Seq<Slot>, i: int)
    requires
        distinct_ids(s),
        0 <= i < s.len(),
    ensures
        slots_view(s).dom().contains(s[i].id@),
        slot_index(s, s[i].id@) == i,
        slots_view(s)[s[i].id@] == s[i].entry,
{
    assert(has_id(s, s[i].id@));
    let j = slot_index(s, s[i].id@);
    assert(0 <= j < s.len() && s[j].id@ == s[i].id@);
}

proof fn lemma_view_consistent(s: Seq<Slot>)
    requires
        distinct_ids(s),
        slots_consistent(s),
    ensures
        settlement_consistent(slots_view(s)),
{
    assert forall|id: Seq<u8>| #[trigger] slots_view(s).dom().contains(id) implies
        !(slots_view(s)[id].withdrawn && slots_view(s)[id].refunded) by {
        let j = slot_index(s, id);
        lemma_slot_in_view(s, j);
    }
}

proof fn lemma_view_update(s: Seq<Slot>, i: int, slot: Slot)
    requires
        distinct_ids(s),
        0 <= i < s.len(),
        s[i].id@ == slot.id@,
    ensures
        distinct_ids(s.update(i, slot)),
        slots_view(s.update(i, slot)) =~= slots_view(s).insert(slot.id@, slot.entry),
{
    let t = s.update(i, slot);
    assert(distinct_ids(t)) by {
        assert forall|a: int, b: int| 0 <= a < t.len() && 0 <= b < t.len() && a != b implies t[a].id@ != t[b].id@ by {
            assert(t[a].id@ == s[a].id@);
            assert(t[b].id@ == s[b].id@);
        }
    }
    lemma_slot_in_view(t, i);
    assert forall|id: Seq<u8>| has_id(t, id) <==> (has_id(s, id) || id == slot.id@) by {
        if has_id(t, id) {
            let j = choose|j: int| 0 <= j < t.len() && #[trigger] t[j].id@ == id;
            assert(s[j].id@ == id);
        }
        if has_id(s, id) {
            let j = choose|j: int| 0 <= j < s.len() && #[trigger] s[j].id@ == id;
            assert(t[j].id@ == id);
        }
    }
    assert forall|id: Seq<u8>| #[trigger] slots_view(t).dom().contains(id) && id != slot.id@ implies
        slots_view(t)[id] == slots_view(s)[id] by {
        let j = slot_index(t, id);
        lemma_slot_in_view(t, j);
        assert(j != i);
        assert(t[j] == s[j]);
        lemma_slot_in_view(s, j);
    }
}

proof fn lemma_view_push(s: Seq<Slot>, slot: Slot)
    requires
        distinct_ids(s),
        !has_id(s, slot.id@),
    ensures
        distinct_ids(s.push(slot)),
        slots_view(s.push(slot)) =~= slots_view(s).insert(slot.id@, slot.entry),
{
    let t = s.push(slot);
    assert(distinct_ids(t)) by {
        assert forall|a: int, b: int| 0 <= a < t.len() && 0 <= b < t.len() && a != b implies t[a].id@ != t[b].id@ by {
            if a == s.len() {
                assert(t[b] == s[b]);
                assert(s[b].id@ != slot.id@);
            } else if b == s.len() {
                assert(t[a] == s[a]);
                assert(s[a].id@ != slot.id@);
            } else {
                assert(t[a] == s[a] && t[b] == s[b]);
            }
        }
    }
    lemma_slot_in_view(t, s.len() as int);
    assert forall|id: Seq<u8>| has_id(t, id) <==> (has_id(s, id) || id == slot.id@) by {
        if has_id(t, id) {
            let j = choose|j: int| 0 <= j < t.len() && #[trigger] t[j].id@ == id;
            if j < s.len() {
                assert(s[j].id@ == id);
            }
        }
        if has_id(s, id) {
            let j = choose|j: int| 0 <= j < s.len() && #[trigger] s[j].id@ == id;
            assert(t[j].id@ == id);
        }
    }
    assert forall|id: Seq<u8>| #[trigger] slots_view(t).dom().contains(id) && id != slot.id@ implies
        slots_view(t)[id] == slots_view(s)[id] by {
        let j = slot_index(t, id);
        lemma_slot_in_view(t, j);
        assert(j != s.len());
        assert(t[j] == s[j]);
        lemma_slot_in_view(s, j);
    }
}

/// The HTLC contract and its lock table.
pub struct HTLCContract {
    slots: Vec<Slot>,
}

impl View for HTLCContract {
    type V = LockMap;

    closed spec fn view(&self) -> LockMap {
        slots_view(self.slots@)
    }
}

impl HTLCContract {
    #[verifier::type_invariant]
    spec fn well_formed(self) -> bool {
        &&& distinct_ids(self.slots@)
        &&& slots_consistent(self.slots@)
    }

    /// A contract with no locks.
    pub fn new() -> (c: Self)
        ensures
            c@ == LockMap::empty(),
            settlement_consistent(c@),
    {
        let c = HTLCContract { slots: Vec::new() };
        assert(c@ =~= LockMap::empty());
        c
    }

    /// The index of the slot holding `id`, if any.
    fn find(&self, id: &[u8; 32]) -> (r: Option<usize>)
        ensures
            r matches Some(i) ==> i < self.slots@.len() && self.slots@[i as int].id@ == id@,
            r is None ==> !has_id(self.slots@, id@),
    {
        let mut i: usize = 0;
        while i < self.slots.len()
            invariant
                i <= self.slots@.len(),
                forall|j: int| 0 <= j < i ==> self.slots@[j].id@ != id@,
            decreases self.slots@.len() - i,
        {
            if same_digest(&self.slots[i].id, id) {
                return Some(i);
            }
            i = i + 1;
        }
        None
    }

    /// Stores `entry` under `id`, replacing what was there.
    fn store(&mut self, id: [u8; 32], entry: LockEntry)
        requires
            !(entry.withdrawn && entry.refunded),
        ensures
            final(self)@ == old(self)@.insert(id@, entry),
            settlement_consistent(final(self)@),
    {
        proof {
            use_type_invariant(&*self);
        }
        let found = self.find(&id);
        let mut slots: Vec<Slot> = Vec::new();
        std::mem::swap(&mut slots, &mut self.slots);
        let ghost s = slots@;
        let slot = Slot { id, entry };
        match found {
            Some(i) => {
                proof {
                    lemma_view_update(s, i as int, slot);
                }
                slots.set(i, slot);
            },
            None => {
                proof {
                    lemma_view_push(s, slot);
                }
                slots.push(slot);
            },
        }
        assert(slots_consistent(slots@));
        self.slots = slots;
        proof {
            lemma_view_consistent(self.slots@);
        }
    }

    /// The entry stored under `lock_id`.
    pub fn get_lock(&self, lock_id: &[u8; 32]) -> (r: Result<LockEntry, HTLCError>)
        ensures
            r == lookup(self@, lock_id@),
            r matches Ok(e) ==> !(e.withdrawn && e.refunded),
    {
        proof {
            use_type_invariant(self);
        }
        match self.find(lock_id) {
            Some(i) => {
                proof {
                    lemma_slot_in_view(self.slots@, i as int);
                }
                Ok(self.slots[i].entry)
            },
            None => Err(HTLCError::LockNotFound),
        }
    }

    /// A lock request at ledger time `now`, naming the entry `lock_id`.
    pub fn lock_at(
        &mut self,
        now: u64,
        lock_id: [u8; 32],
        sender: Addr,
        receiver: Addr,
        token: Addr,
        amount: i128,
        hashlock: [u8; 32],
        timelock: u64,
    ) -> (r: Result<LockReceipt, LockError>)
        ensures
            lock_effect(
                old(self)@,
                final(self)@,
                now,
                lock_id@,
                open_entry(sender, receiver, token, amount, hashlock, timelock),
                lock_transfer(r),
            ),
            r matches Ok(x) ==> x.lock_id == lock_id && x.event == (Locked { lock_id, amount, timelock }),
            settlement_consistent(final(self)@),
    {
        proof {
            use_type_invariant(&*self);
            lemma_view_consistent(self.slots@);
        }
        match open_lock(sender, receiver, token, amount, hashlock, timelock, now) {
            Err(e) => Err(e),
            Ok(entry) => {
                self.store(lock_id, entry);
                let deposit = deposit_transfer(&entry);
                Ok(LockReceipt { lock_id, deposit, event: Locked { lock_id, amount, timelock } })
            },
        }
    }

    /// Escrows `amount` of `token` from `sender` for `receiver`, until
    /// `timelock`, under `hashlock`. The lock id is the SHA-256 digest of
    /// the hashlock and the current ledger time; an entry already stored
    /// under that id is replaced. The call must be authorized by `sender`,
    /// which the caller checks with the host; the caller also performs the
    /// deposit transfer.
    pub fn lock(
        &mut self,
        env: &Env,
        sender: Addr,
        receiver: Addr,
        token: Addr,
        amount: i128,
        hashlock: [u8; 32],
        timelock: u64,
    ) -> (r: Result<LockReceipt, LockError>)
        ensures
            exists|now: u64| {
                &&& lock_effect(
                    old(self)@,
                    final(self)@,
                    now,
                    lock_id_spec(hashlock@, now),
                    open_entry(sender, receiver, token, amount, hashlock, timelock),
                    lock_transfer(r),
                )
                &&& r matches Ok(x) ==> {
                    &&& x.lock_id@ == lock_id_spec(hashlock@, now)
                    &&& x.event == (Locked { lock_id: x.lock_id, amount, timelock })
                }
            },
            settlement_consistent(final(self)@),
    {
        let now = ledger_timestamp(env);
        let lock_id = lock_id_for(env, &hashlock, now);
        self.lock_at(now, lock_id, sender, receiver, token, amount, hashlock, timelock)
    }

    /// A withdraw of `lock_id` at ledger time `now`, given the digest of
    /// the revealed preimage.
    pub fn withdraw_at(&mut self, now: u64, lock_id: &[u8; 32], preimage_digest: &[u8; 32]) -> (r: Result<Transfer, HTLCError>)
        ensures
            withdraw_effect(old(self)@, final(self)@, lock_id@, preimage_digest@, now, r),
            settlement_consistent(final(self)@),
    {
        proof {
            use_type_invariant(&*self);
            lemma_view_consistent(self.slots@);
        }
        let entry = match self.get_lock(lock_id) {
            Ok(e) => e,
            Err(e) => return Err(e),
        };
        match withdraw_entry(&entry, preimage_digest, now) {
            Err(e) => Err(e),
            Ok((settled, payout)) => {
                self.store(*lock_id, settled);
                Ok(payout)
            },
        }
    }

    /// Pays the escrowed amount of `lock_id` to its receiver, when
    /// `preimage` hashes to the hashlock before the deadline. Anyone may
    /// call it; the caller performs the payout transfer.
    pub fn withdraw(&mut self, env: &Env, lock_id: &[u8; 32], preimage: &[u8]) -> (r: Result<Withdrawal, HTLCError>)
        requires
            preimage@.len() <= u32::MAX,
        ensures
            exists|now: u64|
                withdraw_effect(
                    old(self)@,
                    final(self)@,
                    lock_id@,
                    sha256_digest(preimage@),
                    now,
                    withdrawal_transfer(r),
                ),
            r matches Ok(w) ==> w.event.lock_id == *lock_id && w.event.preimage@ == preimage@,
            settlement_consistent(final(self)@),
    {
        proof {
            use_type_invariant(&*self);
            lemma_view_consistent(self.slots@);
        }
        let now = ledger_timestamp(env);
        let r = match self.get_lock(lock_id) {
            Err(e) => Err(e),
            Ok(entry) => match withdraw_with_preimage(env, &entry, preimage, now) {
                Err(e) => Err(e),
                Ok((settled, payout)) => {
                    self.store(*lock_id, settled);
                    let preimage_copy = vstd::slice::slice_to_vec(preimage);
                    Ok(Withdrawal { payout, event: Withdrawn { lock_id: *lock_id, preimage: preimage_copy } })
                },
            },
        };
        assert(withdraw_effect(old(self)@, self@, lock_id@, sha256_digest(preimage@), now, withdrawal_transfer(r)));
        r
    }

    /// A refund of `lock_id` at ledger time `now`.
    pub fn refund_at(&mut self, now: u64, lock_id: &[u8; 32]) -> (r: Result<Transfer, HTLCError>)
        ensures
            refund_effect(old(self)@, final(self)@, lock_id@, now, r),
            settlement_consistent(final(self)@),
    {
        proof {
            use_type_invariant(&*self);
            lemma_view_consistent(self.slots@);
        }
        let entry = match self.get_lock(lock_id) {
            Ok(e) => e,
            Err(e) => return Err(e),
        };
        match refund_entry(&entry, now) {
            Err(e) => Err(e),
            Ok((settled, payout)) => {
                self.store(*lock_id, settled);
                Ok(payout)
            },
        }
    }

    /// Pays the escrowed amount of `lock_id` back to its sender once the
    /// deadline has passed. Anyone may call it; the caller performs the
    /// transfer.
    pub fn refund(&mut self, env: &Env, lock_id: &[u8; 32]) -> (r: Result<Refund, HTLCError>)
        ensures
            exists|now: u64| refund_effect(old(self)@, final(self)@, lock_id@, now, refund_transfer(r)),
            r matches Ok(x) ==> x.event == (Refunded { lock_id: *lock_id }),
            settlement_consistent(final(self)@),
    {
        let now = ledger_timestamp(env);
        match self.refund_at(now, lock_id) {
            Err(e) => Err(e),
            Ok(payout) => Ok(Refund { payout, event: Refunded { lock_id: *lock_id } }),
        }
    }
}

} // verus!
