use vstd::prelude::*;

verus! {

/// Why an escrow operation was refused. Every refusal leaves the record and
/// the balances unchanged.
#[derive(Clone, Copy, Debug, PartialEq, Eq, Structural)]
pub enum EscrowError {
    /// The operation is not legal from the record's current status.
    InvalidStatus,
    /// The caller is not the party that the operation requires.
    Unauthorized,
    /// The client's balance is below the escrowed amount.
    InsufficientFunds,
    /// A zero amount, or an overflow in the timeout arithmetic.
    InvalidAmount,
    /// The work reference is empty once surrounding whitespace is removed.
    InvalidWorkLink,
    /// The work reference exceeds the character or the byte cap.
    WorkLinkTooLong,
    /// The record is already complete.
    EscrowAlreadyComplete,
    /// The dispute timeout lies outside one to ninety days.
    InvalidTimeout,
}

impl EscrowError {
    /// The human-readable message of this error.
    pub fn message(&self) -> (r: &'static str) {
        match self {
            EscrowError::InvalidStatus => "Invalid status for this action",
            EscrowError::Unauthorized => "You are not authorized to perform this action",
            EscrowError::InsufficientFunds => "Insufficient funds to deposit",
            EscrowError::InvalidAmount => "Invalid amount specified",
            EscrowError::InvalidWorkLink => "Work link cannot be empty",
            EscrowError::WorkLinkTooLong => "Work link is too long",
            EscrowError::EscrowAlreadyComplete => "Escrow is already complete",
            EscrowError::InvalidTimeout => "Invalid timeout period (must be 1-90 days)",
        }
    }
}

} // verus!
