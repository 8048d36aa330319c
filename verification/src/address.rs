//! Ledger addresses and deterministic address derivation.

use vstd::prelude::*;

verus! {

/// A 32-byte ledger address. A derived address is an `Address` computed from
/// an owning identity, seed bytes and a nonce byte; it has no private key.
#[derive(Clone, Copy, Debug, PartialEq, Eq)]
pub struct Address {
    pub bytes: [u8; 32],
}

impl View for Address {
    type V = Seq<u8>;

    open spec fn view(&self) -> Seq<u8> {
        self.bytes@
    }
}

/// Byte-exact equality of two addresses.
pub fn addr_eq(a: &Address, b: &Address) -> (r: bool)
    ensures
        r <==> a@ == b@,
{
    let mut i: usize = 0;
    while i < 32
        invariant
            i <= 32,
            forall|j: int| 0 <= j < i ==> a@[j] == b@[j],
        decreases 32 - i,
    {
        if a.bytes[i] != b.bytes[i] {
            return false;
        }
        i += 1;
    }
    proof {
        assert(a@ =~= b@);
    }
    true
}

/// The identity of the well-known system authority: the all-zero address.
pub open spec fn system_authority_id() -> Seq<u8> {
    Seq::new(32, |i: int| 0u8)
}

/// The well-known system authority as an address value.
pub fn system_authority_address() -> (a: Address)
    ensures
        a@ == system_authority_id(),
{
    let a = Address { bytes: [0u8; 32] };
    proof {
        assert(a@ =~= system_authority_id());
    }
    a
}

/// The address that `(owner, seed, nonce)` derives to, or `None` where the
/// derivation lands outside the space of valid derived addresses (or the seed
/// is over the derivation's length cap). The result depends on the arguments
/// alone.
pub uninterp spec fn pda_of(owner: Seq<u8>, seed: Seq<u8>, nonce: u8) -> Option<Seq<u8>>;

/// Derivation determinism: the derived address is a pure function of the
/// owning identity, the seed bytes and the nonce, so any two derivation
/// results obtained from the same inputs are identical.
pub proof fn lemma_derivation_deterministic(
    owner: Seq<u8>,
    seed: Seq<u8>,
    nonce: u8,
    r1: Option<Seq<u8>>,
    r2: Option<Seq<u8>>,
)
    requires
        r1 == pda_of(owner, seed, nonce),
        r2 == pda_of(owner, seed, nonce),
    ensures
        r1 == r2,
{
}

/// Relies on `solana_program::pubkey::Pubkey::create_program_address`: the
/// derived address is a deterministic function of the seed material and the
/// owning identity alone (a digest of both), and derivation fails exactly on
/// the inputs on which that function reports an error; it never panics.
#[verifier::external_body]
pub fn derive_address(owner: &Address, seed: &[u8], nonce: u8) -> (r: Option<Address>)
    ensures
        (r matches Some(a) ==> pda_of(owner@, seed@, nonce) == Some(a@)),
        r is None ==> pda_of(owner@, seed@, nonce) is None,
{
    let owner_key = solana_program::pubkey::Pubkey::new_from_array(owner.bytes);
    match solana_program::pubkey::Pubkey::create_program_address(&[seed, &[nonce]], &owner_key) {
        Ok(key) => Some(Address { bytes: key.to_bytes() }),
        Err(_) => None,
    }
}

} // verus!
