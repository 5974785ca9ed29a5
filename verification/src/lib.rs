//! A constant-product bonding-curve market maker for a tradable token.
//!
//! The curve prices buys and sells of a token against a scarce settlement
//! asset.  Virtual reserves define the price path; real reserves track what
//! is actually held in custody.  Once the real token reserve is exhausted
//! the curve is complete and all further trades are rejected, so that an
//! external liquidity venue can take over.

use vstd::prelude::*;

pub mod amm;
pub mod executor;
pub mod fee;
pub mod laws;
pub mod state;

verus! {

/// Why a trade or a curve creation was rejected.
///
/// Every rejection is detected before any state is mutated and is surfaced
/// directly to the caller; nothing is retried and nothing is swallowed.
#[derive(Clone, Copy, Debug, PartialEq, Eq)]
pub enum TradeError {
    /// The global configuration is missing or disabled.
    NotInitialized,
    /// The trader lacks the funds or tokens the trade needs.
    InsufficientBalance,
    /// The curve cannot satisfy the requested amount without violating its
    /// real-reserve invariants.
    InsufficientLiquidity,
    /// The fee recipient does not match the configured recipient.
    InvalidFeeRecipient,
    /// The trade size is not positive.
    ZeroAmount,
    /// The post-fee settlement amount violates the caller's slippage bound.
    SlippageExceeded,
    /// The curve is complete; migration has or will take over.
    CurveCompleted,
    /// The custody collaborator rejected an asset movement.
    TransferFailed,
    /// A defensive arithmetic bound was hit.
    Overflow,
}

} // verus!
