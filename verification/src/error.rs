//! Why a transition was rejected.

use vstd::prelude::*;

verus! {

/// A failure of one of the ledger's token operations, handed on as it came.
#[derive(Clone, Copy, Debug, PartialEq, Eq, Structural)]
pub enum HostError {
    /// The authority of the operation does not control the account it acts on.
    OwnerMismatch,
    /// The accounts of the operation do not belong to the same mint.
    MintMismatch,
    /// A balance or the supply does not fit in 64 bits.
    Overflow,
}

/// The reason for which `initialize`, `stake` or `unstake` left the accounts
/// as they were.
#[derive(Clone, Copy, Debug, PartialEq, Eq, Structural)]
pub enum StakeError {
    /// A bump does not derive the address it was supplied for.
    InvalidDerivation,
    /// The amount is zero.
    InvalidAmount,
    /// The paying account holds less than the amount.
    InsufficientFunds,
    /// The vault or the receipt mint of the base token exists already.
    AlreadyInitialized,
    /// The vault does not hold what the receipt mint has issued.
    InvariantViolation,
    /// A token operation failed for another reason.
    HostError(HostError),
}

} // verus!
