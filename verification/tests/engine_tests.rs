use pda_auth::address::{derive_address, system_authority_address, Address};
use pda_auth::codec::InstructionData;
use pda_auth::engine::{authorize, AccountRef, AccountSet};
use pda_auth::error::{AccountFault, AuthError, RejectReason};

fn account(address: Address, is_signer: bool, is_writable: bool, owner: Address, lamports: u64) -> AccountRef {
    AccountRef { address, is_signer, is_writable, owner, lamports }
}

fn find_bump(owner: &Address, seed: &[u8]) -> (u8, Address) {
    let mut bump = 255u8;
    loop {
        if let Some(a) = derive_address(owner, seed, bump) {
            return (bump, a);
        }
        if bump == 0 {
            panic!("no valid derivation nonce for this seed");
        }
        bump -= 1;
    }
}

fn valid_accounts(pda: Address, controlled_lamports: u64, recipient_lamports: u64) -> AccountSet {
    let sys = system_authority_address();
    AccountSet {
        payer: account(Address { bytes: [9u8; 32] }, true, true, sys, 5_000_000),
        controlled_address: account(pda, false, true, sys, controlled_lamports),
        recipient: account(Address { bytes: [3u8; 32] }, false, true, sys, recipient_lamports),
        system_authority: account(sys, false, false, sys, 1),
    }
}

fn owner() -> Address {
    Address { bytes: [7u8; 32] }
}

const AMOUNT: u64 = 1_000_000_000;

fn funded_scenario(controlled_lamports: u64) -> (AccountSet, Vec<u8>) {
    let (bump, pda) = find_bump(&owner(), b"PROGRAM");
    let accounts = valid_accounts(pda, controlled_lamports, 0);
    let payload = InstructionData::new("PROGRAM", bump, AMOUNT).as_bytes();
    (accounts, payload)
}

#[test]
fn derivation_is_deterministic() {
    let (bump, pda) = find_bump(&owner(), b"PROGRAM");
    let again = derive_address(&owner(), b"PROGRAM", bump).unwrap();
    assert_eq!(pda, again);
    // The derivation really digests its inputs: it hands back neither of them.
    assert_ne!(pda.bytes, owner().bytes);
    assert_ne!(pda, system_authority_address());
}

#[test]
fn funded_transfer_succeeds() {
    let (mut accounts, payload) = funded_scenario(2 * AMOUNT);
    let before = accounts;
    let r = authorize(&owner(), &mut accounts, &payload);
    assert_eq!(r, Ok(()));
    assert_eq!(accounts.controlled_address.lamports, 2 * AMOUNT - AMOUNT);
    assert_eq!(accounts.recipient.lamports, AMOUNT);
    assert_eq!(accounts.payer, before.payer);
    assert_eq!(accounts.system_authority, before.system_authority);
}

#[test]
fn underfunded_transfer_is_rejected() {
    let (mut accounts, payload) = funded_scenario(AMOUNT - 1);
    let before = accounts;
    let r = authorize(&owner(), &mut accounts, &payload);
    assert_eq!(
        r,
        Err(AuthError::DelegatedCallRejected(RejectReason::InsufficientBalance))
    );
    assert_eq!(accounts, before);
}

#[test]
fn zero_amount_is_a_successful_noop() {
    let (bump, pda) = find_bump(&owner(), b"PROGRAM");
    let mut accounts = valid_accounts(pda, 123, 456);
    let payload = InstructionData::new("PROGRAM", bump, 0).as_bytes();
    let before = accounts;
    let r = authorize(&owner(), &mut accounts, &payload);
    assert_eq!(r, Ok(()));
    assert_eq!(accounts, before);
}

#[test]
fn tampered_controlled_address_is_rejected() {
    let (mut accounts, payload) = funded_scenario(2 * AMOUNT);
    // Substitute an unrelated (but otherwise well-formed) account address.
    let substitute = Address { bytes: [11u8; 32] };
    assert_ne!(substitute, accounts.controlled_address.address);
    accounts.controlled_address.address = substitute;
    let before = accounts;
    let r = authorize(&owner(), &mut accounts, &payload);
    assert_eq!(r, Err(AuthError::AddressMismatch));
    assert_eq!(accounts, before);
}

#[test]
fn wrong_nonce_is_rejected() {
    let (bump, pda) = find_bump(&owner(), b"PROGRAM");
    let mut accounts = valid_accounts(pda, 2 * AMOUNT, 0);
    let wrong = if bump == 0 { 1 } else { bump - 1 };
    let payload = InstructionData::new("PROGRAM", wrong, AMOUNT).as_bytes();
    let r = authorize(&owner(), &mut accounts, &payload);
    assert_eq!(r, Err(AuthError::AddressMismatch));
}

#[test]
fn account_checks_precede_decoding() {
    let (mut accounts, _) = funded_scenario(2 * AMOUNT);
    accounts.payer.is_signer = false;
    let garbage = vec![1u8, 2, 3];
    let r = authorize(&owner(), &mut accounts, &garbage);
    assert_eq!(
        r,
        Err(AuthError::InvalidAccountState(AccountFault::PayerNotSigner))
    );
}

#[test]
fn malformed_payload_with_valid_accounts() {
    let (mut accounts, _) = funded_scenario(2 * AMOUNT);
    let garbage = vec![1u8, 2, 3];
    let r = authorize(&owner(), &mut accounts, &garbage);
    assert_eq!(r, Err(AuthError::MalformedPayload));
}

#[test]
fn each_account_fault_is_reported() {
    let (accounts, payload) = funded_scenario(2 * AMOUNT);

    let mut a = accounts;
    a.payer.is_writable = false;
    assert_eq!(
        authorize(&owner(), &mut a, &payload),
        Err(AuthError::InvalidAccountState(AccountFault::PayerNotWritable))
    );

    let mut b = accounts;
    b.controlled_address.is_writable = false;
    assert_eq!(
        authorize(&owner(), &mut b, &payload),
        Err(AuthError::InvalidAccountState(AccountFault::ControlledNotWritable))
    );

    let mut c = accounts;
    c.controlled_address.owner = Address { bytes: [5u8; 32] };
    assert_eq!(
        authorize(&owner(), &mut c, &payload),
        Err(AuthError::InvalidAccountState(AccountFault::ControlledNotSystemOwned))
    );

    let mut d = accounts;
    d.system_authority.address = Address { bytes: [5u8; 32] };
    assert_eq!(
        authorize(&owner(), &mut d, &payload),
        Err(AuthError::InvalidAccountState(AccountFault::UnknownSystemAuthority))
    );
}

#[test]
fn recipient_overflow_is_rejected() {
    let (bump, pda) = find_bump(&owner(), b"PROGRAM");
    let mut accounts = valid_accounts(pda, 2 * AMOUNT, u64::MAX);
    let payload = InstructionData::new("PROGRAM", bump, 1).as_bytes();
    let before = accounts;
    let r = authorize(&owner(), &mut accounts, &payload);
    assert_eq!(
        r,
        Err(AuthError::DelegatedCallRejected(RejectReason::RecipientOverflow))
    );
    assert_eq!(accounts, before);
}

#[test]
fn error_labels() {
    assert_eq!(AuthError::MalformedPayload.describe(), "malformed payload");
    assert_eq!(AuthError::AddressMismatch.describe(), "address mismatch");
    assert_eq!(
        AuthError::InvalidAccountState(AccountFault::PayerNotSigner).describe(),
        "invalid account state"
    );
    assert_eq!(
        AuthError::DelegatedCallRejected(RejectReason::InsufficientBalance).describe(),
        "delegated call rejected"
    );
}
