//! The address-derivation and authorization engine.
//!
//! One call is an independent, atomic validate -> derive -> authorize
//! sequence: the engine checks the structural invariants of the supplied
//! accounts, decodes the payload, re-derives the controlled address from
//! `(owner, seed, nonce)`, and only then moves the requested amount out of
//! the controlled address. Any failure leaves every account unchanged.

use vstd::prelude::*;
use vstd::utf8::encode_utf8;
use crate::address::{addr_eq, derive_address, pda_of, system_authority_address, system_authority_id, Address};
use crate::codec::{decode_spec, InstructionData, PayloadModel};
use crate::error::{AccountFault, AuthError, RejectReason};

verus! {

/// One account reference supplied with an invocation: its address, its
/// signer and mutability flags, the address that owns it, and its balance
/// in minor units.
#[derive(Clone, Copy, Debug, PartialEq, Eq)]
pub struct AccountRef {
    pub address: Address,
    pub is_signer: bool,
    pub is_writable: bool,
    pub owner: Address,
    pub lamports: u64,
}

/// The ordered, fixed-arity set of accounts that every invocation supplies.
#[derive(Clone, Copy, Debug, PartialEq, Eq)]
pub struct AccountSet {
    pub payer: AccountRef,
    pub controlled_address: AccountRef,
    pub recipient: AccountRef,
    pub system_authority: AccountRef,
}

/// The first structural invariant of the account set that fails, checked in
/// order: payer signer, payer mutable, controlled address mutable, controlled
/// address owned by the system authority, system authority well-known.
pub open spec fn account_fault(s: AccountSet) -> Option<AccountFault> {
    if !s.payer.is_signer {
        Some(AccountFault::PayerNotSigner)
    } else if !s.payer.is_writable {
        Some(AccountFault::PayerNotWritable)
    } else if !s.controlled_address.is_writable {
        Some(AccountFault::ControlledNotWritable)
    } else if s.controlled_address.owner@ != system_authority_id() {
        Some(AccountFault::ControlledNotSystemOwned)
    } else if s.system_authority.address@ != system_authority_id() {
        Some(AccountFault::UnknownSystemAuthority)
    } else {
        None
    }
}

/// Whether the payload's `(seed, nonce)` re-derives, under `owner`, exactly
/// the controlled address of the account set.
pub open spec fn derivation_matches(owner: Seq<u8>, s: AccountSet, p: PayloadModel) -> bool {
    pda_of(owner, encode_utf8(p.seed), p.nonce) == Some(s.controlled_address.address@)
}

/// Why the hosting environment would reject the sub-transfer, if at all.
pub open spec fn transfer_fault(s: AccountSet, amount: u64) -> Option<RejectReason> {
    if s.controlled_address.lamports < amount {
        Some(RejectReason::InsufficientBalance)
    } else if s.recipient.lamports + amount > u64::MAX {
        Some(RejectReason::RecipientOverflow)
    } else {
        None
    }
}

/// The account set after the authorized transfer: `amount` minor units move
/// from the controlled address to the recipient; nothing else changes.
pub open spec fn apply_transfer(s: AccountSet, amount: u64) -> AccountSet
    recommends
        transfer_fault(s, amount) is None,
{
    AccountSet {
        controlled_address: AccountRef {
            lamports: (s.controlled_address.lamports - amount) as u64,
            ..s.controlled_address
        },
        recipient: AccountRef {
            lamports: (s.recipient.lamports + amount) as u64,
            ..s.recipient
        },
        ..s
    }
}

/// A transfer of nothing changes nothing: with amount zero the authorized
/// sub-call is a no-op on every balance.
pub proof fn lemma_zero_amount_noop(s: AccountSet)
    ensures
        apply_transfer(s, 0) == s,
{
}

/// A request is approved exactly when the account set is structurally sound,
/// the payload decodes, its `(seed, nonce)` re-derives the controlled
/// address, and the hosting environment has no ground to reject the transfer.
pub open spec fn request_approved(owner: Seq<u8>, s: AccountSet, payload: Seq<u8>) -> bool {
    &&& account_fault(s) is None
    &&& decode_spec(payload) matches Some(p) && derivation_matches(owner, s, p)
        && transfer_fault(s, p.amount) is None
}

/// Validate the accounts, decode the payload, re-derive the controlled
/// address and authorize the transfer it asks for. The contract walks the
/// four terminal failure paths in their checking order and pins the one
/// success path; every failure leaves the accounts untouched.
pub fn authorize(owner_id: &Address, accounts: &mut AccountSet, payload: &[u8]) -> (r: Result<
    (),
    AuthError,
>)
    ensures
        (account_fault(*old(accounts)) matches Some(f) ==> r == Err::<(), AuthError>(
            AuthError::InvalidAccountState(f),
        )),
        account_fault(*old(accounts)) is None && decode_spec(payload@) is None ==> r == Err::<
            (),
            AuthError,
        >(AuthError::MalformedPayload),
        (decode_spec(payload@) matches Some(p) ==> (account_fault(*old(accounts)) is None
            && !derivation_matches(owner_id@, *old(accounts), p) ==> r == Err::<(), AuthError>(
            AuthError::AddressMismatch,
        ))),
        (decode_spec(payload@) matches Some(p) ==> (transfer_fault(
            *old(accounts),
            p.amount,
        ) matches Some(why) ==> (account_fault(*old(accounts)) is None && derivation_matches(
            owner_id@,
            *old(accounts),
            p,
        ) ==> r == Err::<(), AuthError>(AuthError::DelegatedCallRejected(why))))),
        (decode_spec(payload@) matches Some(p) ==> (account_fault(*old(accounts)) is None
            && derivation_matches(owner_id@, *old(accounts), p) && transfer_fault(
            *old(accounts),
            p.amount,
        ) is None ==> r == Ok::<(), AuthError>(()) && *final(accounts) == apply_transfer(
            *old(accounts),
            p.amount,
        ))),
        r is Ok <==> request_approved(owner_id@, *old(accounts), payload@),
        r is Err ==> *final(accounts) == *old(accounts),
{
    let system_id = system_authority_address();
    if !accounts.payer.is_signer {
        return Err(AuthError::InvalidAccountState(AccountFault::PayerNotSigner));
    }
    if !accounts.payer.is_writable {
        return Err(AuthError::InvalidAccountState(AccountFault::PayerNotWritable));
    }
    if !accounts.controlled_address.is_writable {
        return Err(AuthError::InvalidAccountState(AccountFault::ControlledNotWritable));
    }
    if !addr_eq(&accounts.controlled_address.owner, &system_id) {
        return Err(AuthError::InvalidAccountState(AccountFault::ControlledNotSystemOwned));
    }
    if !addr_eq(&accounts.system_authority.address, &system_id) {
        return Err(AuthError::InvalidAccountState(AccountFault::UnknownSystemAuthority));
    }
    let data = match InstructionData::from_bytes(payload) {
        Ok(d) => d,
        Err(e) => {
            return Err(e);
        },
    };
    let derived = derive_address(owner_id, data.seed.as_str().as_bytes(), data.bump_seed);
    match derived {
        Some(a) => {
            if !addr_eq(&a, &accounts.controlled_address.address) {
                return Err(AuthError::AddressMismatch);
            }
        },
        None => {
            return Err(AuthError::AddressMismatch);
        },
    }
    let amount = data.lamports;
    if accounts.controlled_address.lamports < amount {
        return Err(AuthError::DelegatedCallRejected(RejectReason::InsufficientBalance));
    }
    if u64::MAX - accounts.recipient.lamports < amount {
        return Err(AuthError::DelegatedCallRejected(RejectReason::RecipientOverflow));
    }
    accounts.controlled_address.lamports = accounts.controlled_address.lamports - amount;
    accounts.recipient.lamports = accounts.recipient.lamports + amount;
    Ok(())
}

} // verus!
