//! The failure reasons a request can be rejected with.
//!
//! Every failure aborts the whole request; the host commits either all of a
//! request's effects or none of them, so no variant here is ever recovered
//! from locally.

use vstd::prelude::*;

verus! {

/// Why a request was rejected.
#[derive(Clone, Copy, Debug, PartialEq, Eq, Structural)]
pub enum EscrowError {
    /// The account list is shorter than the operation's positional layout.
    NotEnoughAccountKeys,
    /// The payload has the wrong length, or asks for a zero deposit.
    InvalidInstructionData,
    /// An account that must have signed the request did not.
    MissingRequiredSignature,
    /// An account is not owned by the expected program, or its address does
    /// not match its deterministic derivation.
    InvalidAccountOwner,
    /// An account's data is not structurally what the operation expects.
    InvalidAccountData,
    /// A token account is not the canonical associated account for its
    /// claimed (owner, mint) pair.
    InvalidAssociatedAccount,
    /// No valid derived address exists for the presented bump value.
    InvalidSeeds,
    /// A token transfer asks for more than its source holds, or a payer
    /// cannot fund a new account's storage deposit.
    InsufficientFunds,
    /// Account creation was asked for at an address that is already in use.
    AccountAlreadyInUse,
    /// A balance update would overflow its fixed-width representation.
    ArithmeticOverflow,
}

} // verus!
