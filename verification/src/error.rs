//! Errors the program answers a refused instruction with.

use vstd::prelude::*;

verus! {

/// Why an instruction was refused.
#[derive(Clone, Copy, Debug, PartialEq, Eq)]
pub enum HalopotError {
    /// The signer given as admin is not the admin recorded in the pool.
    ConstraintHasOne,
    /// A deposit must be exactly one ticket price.
    IncorrectTicketPrice,
    /// The pool holds no more than its principal, so there is nothing to win.
    NoYieldToDistribute,
    /// No ticket has been drawn in this round.
    NoWinnerSelected,
    /// The ticket presented is not the drawn one.
    WrongTicket,
    /// The claimant does not hold the drawn ticket.
    WrongWinnerAddress,
}

/// Token errors of the withdraw flow.
#[derive(Clone, Copy, Debug, PartialEq, Eq)]
pub enum TokenError {
    InsufficientBalance,
}

} // verus!
