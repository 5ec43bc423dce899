//! Error taxonomy of the swap engine and its neighbours.
//!
//! Every failure is terminal for the operation that raised it: nothing is
//! retried inside the library, and no partial state change survives an error.

use vstd::prelude::*;

verus! {

/// Failures raised while quoting, applying or settling a swap.
#[derive(Clone, Copy, Debug, PartialEq, Eq, Structural)]
pub enum AmmError {
    /// Account data could not be borrowed mutably.
    BorrowInvalid,
    /// The token mint does not match the curve's records.
    InvalidMint,
    /// A token amount is not acceptable.
    InvalidBalance,
    /// The curve is complete; no further trades are accepted.
    CurveComplete,
    /// The curve's activation time is still in the future.
    CurveNotStarted,
    /// The buy quote or its application could not be computed.
    CouldNotBuy,
    /// The sell quote or its application could not be computed.
    CouldNotSell,
    /// The computed output violates the caller's minimum-output bound.
    SlippageExceeded,
    /// A post-trade consistency check failed.
    InvariantFailed,
}

impl AmmError {
    /// A human-readable description of the error.
    pub fn to_str(&self) -> (r: &'static str)
    {
        match self {
            AmmError::BorrowInvalid => "Load Error: Couldn't mut borrow account data",
            AmmError::InvalidMint => "Validation Error: Invalid Mint",
            AmmError::InvalidBalance => "Validation Error: Invalid Token amount",
            AmmError::CurveComplete => "Validation Error: Curve Already Complete",
            AmmError::CurveNotStarted => "Validation Error: Curve Not started yet",
            AmmError::SlippageExceeded => "Swap Error: Slippage exceeded",
            AmmError::CouldNotBuy => "Swap Error: Couldn't buy tokens",
            AmmError::CouldNotSell => "Swap Error: Couldn't sell tokens",
            AmmError::InvariantFailed => "Swap Error: Invariants failed",
        }
    }
}

/// Reasons a seed configuration is rejected.
#[derive(Clone, Copy, Debug, PartialEq, Eq, Structural)]
pub enum ValidationError {
    /// More than nine mint decimals.
    DecimalsTooLarge,
    /// The total supply exceeds half the 64-bit range.
    SupplyTooLarge,
    /// The initial virtual token reserve is zero.
    ZeroVirtualTokenReserves,
    /// The initial virtual base reserve is zero.
    ZeroVirtualBaseReserves,
    /// The initial real token reserve is zero.
    ZeroRealTokenReserves,
    /// The total supply does not exceed the initial real token reserve.
    SupplyNotAboveRealReserves,
}

/// Failure of a checked arithmetic step: overflow, underflow, or a
/// non-representable cast.
#[derive(Clone, Copy, Debug, PartialEq, Eq, Structural)]
pub enum ArithmeticError {
    /// A checked operation left the representable range.
    Overflow,
}

/// Reasons the post-trade invariant checker rejects a state, one per check.
#[derive(Clone, Copy, Debug, PartialEq, Eq, Structural)]
pub enum InvariantError {
    /// The custody base balance is below the accounted real base reserves.
    BaseBalanceTooLow,
    /// The custody token balance does not match the accounted real token
    /// reserves plus the tokens that were always outside the curve.
    TokenBalanceMismatch,
    /// The curve is marked complete but real token reserves remain.
    CompletedWithTokenReserves,
    /// The curve is still active but its token custody account is not frozen.
    NotFrozen,
}

} // verus!
