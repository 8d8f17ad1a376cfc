# soroban_contracts

Verified decision logic of two Soroban contracts, written in Verus.

- `src/fee_collector.rs`: the fee collector's configuration (admin, fee in
  basis points, treasury) and its calls; `deduct` splits an amount into the
  merchant's share and the fee, rounding toward zero, and names the two
  transfers to perform.
- `src/htlc.rs`: the rules of one hashed time-locked entry: lock requests,
  lock ids (SHA-256 of hashlock and ledger time), withdraw and refund.
- `src/escrow.rs`: the HTLC contract with its lock table, and the laws that
  relate its calls.
- `src/host.rs`: the Soroban host calls the logic makes (SHA-256, ledger
  time), with the contracts that are trusted.
- `src/types.rs`: addresses and token transfers as plain values.
- `app/`: the Soroban entry points: authorization, storage, token transfers
  and events around the verified decisions.
