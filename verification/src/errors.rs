//! Failure modes of the lottery core.

use vstd::prelude::*;

verus! {

/// Every way an operation of the lottery core can be refused.
///
/// Validation errors reject bad input before any state is touched;
/// state-conflict errors report the pool or ticket being in the wrong state
/// for the request; `Overflow` covers any arithmetic that would leave the
/// unsigned 64-bit range, which the core always refuses rather than clamps.
#[derive(Clone, Copy, Debug, PartialEq, Eq, Structural)]
pub enum FortuneXError {
    PoolNotActive,
    DrawTimeNotReached,
    PoolFull,
    InsufficientFunds,
    Unauthorized,
    TicketNotFound,
    PoolDrawCompleted,
    InvalidTicketPrice,
    InvalidMaxTickets,
    InvalidMinMaxTickets,
    InvalidDrawInterval,
    InvalidPlatformFee,
    InvalidBonusPoolFee,
    CreatorAlreadyWhitelisted,
    WhitelistFull,
    CreatorNotWhitelisted,
    Overflow,
    InvalidWinnerTokenAccount,
    InvalidRemainingAccountsCount,
    InvalidTicketQuantity,
}

} // verus!
