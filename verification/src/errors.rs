//! Error taxonomy shared by every fallible operation of the crate.

use vstd::prelude::*;

verus! {

/// Why an operation on the market was rejected.
///
/// Every failure is total: the operation that reports an error leaves the
/// state exactly as it found it.
#[derive(Clone, Copy, Debug, PartialEq, Eq, Structural)]
pub enum ContractError {
    /// An overflow, underflow or failed narrowing during arithmetic.
    ArithmeticError,
    /// The global configuration was already initialized.
    AlreadyInitialized,
    /// A configuration parameter was out of range.
    InvalidArgument,
    /// A requested trading start lies in the past.
    InvalidStartTime,
    /// The paying side cannot cover the trade.  The library never raises
    /// this itself: the caller checks its user's balances against the
    /// returned trade and reports it before settling.
    InsufficientFunds,
    /// A trade was attempted before the curve's trading start.
    CurveNotStarted,
    /// A trade was attempted after the curve became complete.
    CurveComplete,
    /// A trade with a zero amount.
    MinSwap,
    /// The buy could not be priced or committed.
    BuyFailed,
    /// The sell could not be priced or committed.
    SellFailed,
    /// The output of a trade fell below the caller's minimum.
    SlippageExceeded,
    /// The internal bookkeeping disagrees with the custodied balances.
    BondingCurveInvariant,
}

impl ContractError {
    /// A short human-readable name for the error.
    pub fn as_str(&self) -> (r: &'static str)
    {
        match self {
            ContractError::ArithmeticError => "arithmetic error",
            ContractError::AlreadyInitialized => "already initialized",
            ContractError::InvalidArgument => "invalid argument",
            ContractError::InvalidStartTime => "invalid start time",
            ContractError::InsufficientFunds => "insufficient funds",
            ContractError::CurveNotStarted => "curve not started",
            ContractError::CurveComplete => "curve complete",
            ContractError::MinSwap => "swap amount too small",
            ContractError::BuyFailed => "buy failed",
            ContractError::SellFailed => "sell failed",
            ContractError::SlippageExceeded => "slippage exceeded",
            ContractError::BondingCurveInvariant => "bonding curve invariant violated",
        }
    }
}

} // verus!
