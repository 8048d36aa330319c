//! Deterministic-address authorization for a ledger execution environment.
//!
//! A controlled address is derived from an owning program's identity, seed
//! bytes and a one-byte nonce; it has no private key. The engine validates a
//! fixed set of accounts, re-derives the address from the payload carried as
//! instruction data, and authorizes a transfer out of that address only when
//! every structural and derivation invariant holds.

pub mod address;
pub mod codec;
pub mod engine;
pub mod error;
