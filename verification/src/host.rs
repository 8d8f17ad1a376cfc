//! The calls into the Soroban host that the contract logic makes, and the
//! contracts Verus believes of them.

use vstd::prelude::*;
use soroban_sdk::Env;

verus! {

/// The contract's handle on the Soroban host. Opaque here: it is only
/// handed through to the host calls below.
#[verifier::external_type_specification]
#[verifier::external_body]
pub struct ExEnv(soroban_sdk::Env);

/// The SHA-256 digest of `data`.
pub uninterp spec fn sha256_digest(data: Seq<u8>) -> Seq<u8>;

/// Calls `Crypto::sha256` of `soroban_sdk` (through `env.crypto()`) on a
/// `Bytes` built from `data`, and returns the digest as an array. Believed:
/// the result is a function of `data` alone, named `sha256_digest`; the host
/// computes it with `sha2::Sha256` and does not read any other state of
/// `env`. Left unsaid: the host meters the call against the invocation's
/// resource budget and traps when the budget is spent, which depends on the
/// state of `env` and cannot be stated here.
#[verifier::external_body]
pub(crate) fn sha256(env: &Env, data: &[u8]) -> (digest: [u8; 32])
    requires
        data@.len() <= u32::MAX,
    ensures
        digest@ == sha256_digest(data@),
{
    let bytes = soroban_sdk::Bytes::from_slice(env, data);
    env.crypto().sha256(&bytes).to_array()
}

/// Calls `Ledger::timestamp` of `soroban_sdk` (through `env.ledger()`):
/// the close time of the ledger that runs the call. It depends on the
/// ledger, so nothing is stated of it.
#[verifier::external_body]
pub(crate) fn ledger_timestamp(env: &Env) -> u64 {
    env.ledger().timestamp()
}

} // verus!
