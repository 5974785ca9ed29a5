//! The reserve model: the global configuration and the per-token bonding
//! curve, with the numeric invariants every trade must preserve.

use vstd::prelude::*;

verus! {

/// The global configuration, created once and immutable thereafter.
///
/// It seeds every new curve's reserves and fixes the fee rate and the
/// identity credited with collected fees.  Identities are plain numeric
/// account ids; binding them to real accounts is the custody collaborator's
/// concern, not this engine's.
#[derive(Clone, Copy, Debug, PartialEq, Eq)]
pub struct Global {
    /// Gate: no curve may be created while false.
    pub initialized: bool,
    /// The identity credited with collected fees.
    pub fee_recipient: u64,
    /// Seed for a new curve's virtual token reserve.
    pub initial_virtual_token_reserves: u64,
    /// Seed for a new curve's virtual settlement-asset reserve.
    pub initial_virtual_sol_reserves: u64,
    /// Seed for a new curve's real token reserve.
    pub initial_real_token_reserves: u64,
    /// Total token supply minted for a new curve.
    pub initial_token_supply: u64,
    /// Fee rate in units of 1/10000, applied to every trade's
    /// settlement-asset leg.
    pub fee_basis_points: u64,
}

impl Global {
    /// A configuration is well formed when its fee rate is a valid
    /// basis-point value and the virtual token seed covers the real token
    /// seed, so that every curve it seeds starts well formed.  This is
    /// established by the privileged configuration workflow, before any
    /// curve is created.
    pub open spec fn wf(self) -> bool {
        &&& self.fee_basis_points <= 10000
        &&& self.initial_virtual_token_reserves >= self.initial_real_token_reserves
    }
}

/// One bonding curve: the pricing state for one tradable token.
///
/// Virtual reserves define the constant-product price path; real reserves
/// track the settlement asset and tokens actually held in custody for this
/// curve.  `complete` flips to true exactly once, when the real token
/// reserve reaches zero, and never back.
#[derive(Clone, Copy, Debug, PartialEq, Eq)]
pub struct BondingCurve {
    /// Phantom token liquidity used only for price computation.
    pub virtual_token_reserves: u64,
    /// Phantom settlement-asset liquidity used only for price computation.
    pub virtual_sol_reserves: u64,
    /// Tokens actually held in custody for this curve.
    pub real_token_reserves: u64,
    /// Settlement asset actually held in custody for this curve.
    pub real_sol_reserves: u64,
    /// Fixed at creation; invariant for the curve's lifetime.
    pub token_total_supply: u64,
    /// Terminal flag: once true, every trade is rejected.
    pub complete: bool,
}

impl BondingCurve {
    /// The reserve invariant: each virtual reserve covers the corresponding
    /// real reserve.  Holds before and after every trade.
    pub open spec fn wf(self) -> bool {
        &&& self.virtual_sol_reserves >= self.real_sol_reserves
        &&& self.virtual_token_reserves >= self.real_token_reserves
    }
}

} // verus!
