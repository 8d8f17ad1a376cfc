//! Plain values shared by both contracts: account identities and the token
//! transfers that a contract call asks the token contract to perform; and
//! the XDR form (`ScVal::Address`) in which the host hands addresses over.

use vstd::prelude::*;

verus! {

/// The two kinds of ledger identity that can hold tokens.
#[derive(Clone, Copy, Debug, PartialEq, Eq, Hash)]
pub enum AddressKind {
    /// An account controlled by an ed25519 key.
    Account,
    /// A deployed contract, identified by its hash.
    Contract,
}

/// A ledger address: its kind and its 32-byte payload (public key or
/// contract hash).
#[derive(Clone, Copy, Debug, PartialEq, Eq, Hash)]
pub struct Addr {
    pub kind: AddressKind,
    pub key: [u8; 32],
}

/// One side of a token transfer: the contract that runs the call, or
/// another address.
#[derive(Clone, Copy, Debug, PartialEq, Eq, Hash)]
pub enum Party {
    /// The contract whose call asked for the transfer.
    Contract,
    /// Any other address.
    Address(Addr),
}

/// A call of `transfer(from, to, amount)` on the token contract `token`.
#[derive(Clone, Copy, Debug, PartialEq, Eq)]
pub struct Transfer {
    pub token: Addr,
    pub from: Party,
    pub to: Party,
    pub amount: i128,
}

/// The XDR bytes that start an `ScVal::Address` holding an account: the
/// value tag 18 (`SCV_ADDRESS`), the address tag 0 (`SC_ADDRESS_TYPE_ACCOUNT`)
/// and the key tag 0 (`PUBLIC_KEY_TYPE_ED25519`), each a big-endian `u32`.
pub open spec fn account_xdr_prefix() -> Seq<u8> {
    seq![0u8, 0u8, 0u8, 18u8, 0u8, 0u8, 0u8, 0u8, 0u8, 0u8, 0u8, 0u8]
}

/// The XDR bytes that start an `ScVal::Address` holding a contract: the
/// value tag 18 and the address tag 1 (`SC_ADDRESS_TYPE_CONTRACT`).
pub open spec fn contract_xdr_prefix() -> Seq<u8> {
    seq![0u8, 0u8, 0u8, 18u8, 0u8, 0u8, 0u8, 1u8]
}

/// The XDR encoding of `a` as an `ScVal::Address`: the tags, then the
/// 32-byte key or contract hash.
pub open spec fn addr_xdr(a: Addr) -> Seq<u8> {
    match a.kind {
        AddressKind::Account => account_xdr_prefix() + a.key@,
        AddressKind::Contract => contract_xdr_prefix() + a.key@,
    }
}

/// Different addresses have different encodings.
pub proof fn addr_xdr_injective(a: Addr, b: Addr)
    requires
        addr_xdr(a) == addr_xdr(b),
    ensures
        a == b,
{
    let x = addr_xdr(a);
    assert(a.kind == b.kind) by {
        if a.kind != b.kind {
            assert(x.len() == 44 || x.len() == 40);
            assert(addr_xdr(a).len() != addr_xdr(b).len());
        }
    }
    let start: int = if a.kind == AddressKind::Account { 12 } else { 8 };
    assert(a.key@ =~= x.subrange(start, start + 32));
    assert(b.key@ =~= x.subrange(start, start + 32));
    assert(a.key =~= b.key);
}

/// The 32 bytes of `bytes` from `start` on, as an array.
fn key_at(bytes: &[u8], start: usize) -> (key: [u8; 32])
    requires
        start + 32 <= bytes@.len(),
    ensures
        key@ == bytes@.subrange(start as int, start + 32),
{
    let mut key = [0u8; 32];
    let n = bytes.len();
    let mut i: usize = 0;
    while i < 32
        invariant
            i <= 32,
            n == bytes@.len(),
            start + 32 <= n,
            key@.len() == 32,
            forall|j: int| 0 <= j < i ==> key@[j] == bytes@[start + j],
        decreases 32 - i,
    {
        key[i] = bytes[start + i];
        i = i + 1;
    }
    assert(key@ =~= bytes@.subrange(start as int, start + 32));
    key
}

/// Encodes `a` as the host encodes an `ScVal::Address`.
pub fn addr_to_xdr(a: &Addr) -> (bytes: Vec<u8>)
    ensures
        bytes@ == addr_xdr(*a),
{
    let mut bytes: Vec<u8> = Vec::new();
    bytes.push(0);
    bytes.push(0);
    bytes.push(0);
    bytes.push(18);
    bytes.push(0);
    bytes.push(0);
    bytes.push(0);
    match a.kind {
        AddressKind::Account => {
            bytes.push(0);
            bytes.push(0);
            bytes.push(0);
            bytes.push(0);
            bytes.push(0);
            assert(bytes@ =~= account_xdr_prefix());
        },
        AddressKind::Contract => {
            bytes.push(1);
            assert(bytes@ =~= contract_xdr_prefix());
        },
    }
    let ghost prefix = bytes@;
    let mut i: usize = 0;
    while i < 32
        invariant
            i <= 32,
            a.key@.len() == 32,
            bytes@ =~= prefix + a.key@.subrange(0, i as int),
        decreases 32 - i,
    {
        bytes.push(a.key[i]);
        i = i + 1;
    }
    assert(a.key@.subrange(0, 32) =~= a.key@);
    bytes
}

/// Decodes an `ScVal::Address` of an account or a contract; `None` for
/// bytes that encode no such address.
pub fn addr_from_xdr(bytes: &[u8]) -> (r: Option<Addr>)
    ensures
        r matches Some(a) ==> addr_xdr(a) == bytes@,
        r is None ==> forall|a: Addr| addr_xdr(a) != bytes@,
{
    let n = bytes.len();
    if n >= 8 && bytes[0] == 0 && bytes[1] == 0 && bytes[2] == 0 && bytes[3] == 18 && bytes[4] == 0
        && bytes[5] == 0 && bytes[6] == 0 {
        if n == 44 && bytes[7] == 0 && bytes[8] == 0 && bytes[9] == 0 && bytes[10] == 0 && bytes[11] == 0 {
            let key = key_at(bytes, 12);
            let a = Addr { kind: AddressKind::Account, key };
            assert(addr_xdr(a) =~= bytes@);
            return Some(a);
        }
        if n == 40 && bytes[7] == 1 {
            let key = key_at(bytes, 8);
            let a = Addr { kind: AddressKind::Contract, key };
            assert(addr_xdr(a) =~= bytes@);
            return Some(a);
        }
    }
    assert forall|a: Addr| addr_xdr(a) != bytes@ by {
        if addr_xdr(a) == bytes@ {
            let x = addr_xdr(a);
            assert(x[0] == 0 && x[1] == 0 && x[2] == 0 && x[3] == 18 && x[4] == 0 && x[5] == 0 && x[6] == 0);
            if a.kind == AddressKind::Account {
                assert(x.len() == 44);
                assert(x[7] == 0 && x[8] == 0 && x[9] == 0 && x[10] == 0 && x[11] == 0);
            } else {
                assert(x.len() == 40);
                assert(x[7] == 1);
            }
        }
    }
    None
}

/// Decoding gives back what encoding was given.
pub proof fn addr_xdr_round_trip(a: Addr, bytes: Seq<u8>, decoded: Option<Addr>)
    requires
        bytes == addr_xdr(a),
        decoded matches Some(d) ==> addr_xdr(d) == bytes,
        decoded is None ==> forall|x: Addr| addr_xdr(x) != bytes,
    ensures
        decoded == Some(a),
{
    match decoded {
        Some(d) => addr_xdr_injective(d, a),
        None => assert(addr_xdr(a) == bytes),
    }
}

} // verus!
