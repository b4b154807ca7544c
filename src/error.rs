use vstd::prelude::*;

verus! {

/// Failure codes of every ledger operation.
///
/// An operation that returns one of these has changed no record.
#[derive(Clone, Copy, Debug, PartialEq, Eq, Structural)]
pub enum RwaError {
    CityNotFound,
    InsufficientFunds,
    RateNotValid,
    Overflow,
    DivideByZero,
    AmountNotValid,
    InvalidMint,
    InvalidAmount,
    InsufficientStakedAmount,
    NothingStaked,
    NoRewardsAvailable,
    InvalidPrice,
}

} // verus!
