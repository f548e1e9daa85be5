//! Error codes surfaced by the contract's entry points.

use vstd::prelude::*;

verus! {

/// Every failure of an entry point is reported as one of these stable codes;
/// no error is silently recovered, and a failing call leaves the state
/// untouched.
#[derive(Clone, Copy, Debug, PartialEq, Eq, Structural)]
pub enum Error {
    /// The contract was already initialized; the constructor runs once only.
    ContractInitialized,
    /// Initialization was asked to use the same principal as administrator
    /// and as payment token.
    AdminTokenConflict,
    /// The caller is not the principal that the operation requires.
    Unauthorized,
    /// A price or payment amount was zero or negative.
    AmountMustBePositive,
    /// A rental was requested for zero days.
    RentalDurationCannotBeZero,
    /// An owner tried to rent their own car.
    SelfRentalNotAllowed,
    /// No car is listed for the given owner.
    CarNotFound,
    /// A car is already listed for the given owner.
    CarAlreadyExist,
    /// The car is not available for rental.
    CarAlreadyRented,
    /// The requested payout exceeds the balance it draws from.
    InsufficientBalance,
    /// The requested payout exceeds the funds held by the contract.
    BalanceNotAvailableForAmountRequested,
}

} // verus!
