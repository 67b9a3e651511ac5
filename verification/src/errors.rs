//! Failure conditions of the escrow variants. Every gate failure is a hard
//! stop: the instruction aborts with one of these and no state change is
//! retained.

use vstd::prelude::*;

verus! {

/// The tagged failures an escrow instruction can end in.
#[derive(Clone, Copy, Debug, PartialEq, Eq, Structural)]
pub enum EscrowError {
    /// No discriminant in range yields a valid authority address.
    AuthBumpError,
    /// No discriminant in range yields a valid vault address.
    VaultBumpError,
    /// No discriminant in range yields a valid escrow record address.
    EscrowBumpError,
    /// The requested expiry window is at or above the accepted bound.
    ExpiryOutOfBounds,
    /// A fulfillment attempt arrived at or after the recorded expiry.
    Expired,
    /// The signer is not the identity the operation is restricted to.
    Unauthorized,
    /// A supplied address does not re-derive from its recorded discriminant
    /// and seeds, or does not match the account recorded at creation time.
    AddressMismatch,
    /// A balance is smaller than the amount the operation needs to move.
    InsufficientFunds,
}

} // verus!
