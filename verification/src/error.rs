//! Typed failures of the authorization engine and the payload codec.

use vstd::prelude::*;

verus! {

/// Which structural invariant of the account set failed, and on which account.
#[derive(Clone, Copy, Debug, PartialEq, Eq, Structural)]
pub enum AccountFault {
    /// The payer is not marked as a transaction signer.
    PayerNotSigner,
    /// The payer is not marked mutable.
    PayerNotWritable,
    /// The controlled address is not marked mutable.
    ControlledNotWritable,
    /// The controlled address is not owned by the system authority's namespace.
    ControlledNotSystemOwned,
    /// The supplied system-authority reference is not the well-known identity.
    UnknownSystemAuthority,
}

/// Why the hosting environment rejected the delegated sub-call.
#[derive(Clone, Copy, Debug, PartialEq, Eq, Structural)]
pub enum RejectReason {
    /// The controlled address holds fewer minor units than the transfer asks for.
    InsufficientBalance,
    /// Crediting the recipient would overflow its balance.
    RecipientOverflow,
}

/// A terminal failure of one authorization call. Every kind aborts the
/// enclosing transaction; none is retried by the engine itself.
#[derive(Clone, Copy, Debug, PartialEq, Eq, Structural)]
pub enum AuthError {
    /// A structural precondition on the account set failed.
    InvalidAccountState(AccountFault),
    /// The instruction bytes do not decode into the required payload fields.
    MalformedPayload,
    /// The recomputed derived address does not match the supplied account.
    AddressMismatch,
    /// The delegated sub-call was rejected by the hosting environment.
    DelegatedCallRejected(RejectReason),
}

impl AuthError {
    /// A short diagnostic label for the failure.
    pub fn describe(&self) -> (r: &'static str)
        ensures
            (*self is InvalidAccountState ==> r@ == "invalid account state"@),
            (*self is MalformedPayload ==> r@ == "malformed payload"@),
            (*self is AddressMismatch ==> r@ == "address mismatch"@),
            (*self is DelegatedCallRejected ==> r@ == "delegated call rejected"@),
    {
        match self {
            AuthError::InvalidAccountState(_) => "invalid account state",
            AuthError::MalformedPayload => "malformed payload",
            AuthError::AddressMismatch => "address mismatch",
            AuthError::DelegatedCallRejected(_) => "delegated call rejected",
        }
    }
}

} // verus!
