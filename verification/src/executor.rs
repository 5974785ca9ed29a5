//! The trade executor: validates one trade end-to-end, prices it, extracts
//! the fee, applies slippage protection, and commits the new reserve model
//! atomically.  It also evaluates the migration trigger: the trade that
//! drives the real token reserve to zero marks the curve complete.
//!
//! The executor is pure with respect to the outside world: asset custody is
//! the caller's concern.  The caller reads the balances the checks need,
//! passes them in, and performs the transfers a successful trade's record
//! calls for.  Nothing is mutated on any rejection.

use vstd::prelude::*;

use crate::amm::{curve_buy_tokens, curve_sell_sol, quote_buy, quote_sell};
use crate::fee::{calculate_fee, fee_amount};
use crate::state::{BondingCurve, Global};
use crate::TradeError;

verus! {

/// What one committed trade did: the two legs, the fee, and the resulting
/// reserve snapshot.  The caller settles the legs (for a sell the trader
/// receives `sol_amount - fee`; for a buy the trader pays `sol_amount + fee`;
/// the fee goes to the configured recipient either way) and emits the record
/// for external observers.
#[derive(Clone, Copy, Debug, PartialEq, Eq)]
pub struct TradeRecord {
    /// Direction: true for a buy, false for a sell.
    pub is_buy: bool,
    /// The settlement-asset leg of the quote, gross of the fee.
    pub sol_amount: u64,
    /// The token leg of the quote.
    pub token_amount: u64,
    /// The protocol fee on the settlement-asset leg.
    pub fee: u64,
    /// Virtual settlement reserve after the trade.
    pub virtual_sol_reserves: u64,
    /// Virtual token reserve after the trade.
    pub virtual_token_reserves: u64,
    /// Real settlement reserve after the trade.
    pub real_sol_reserves: u64,
    /// Real token reserve after the trade.
    pub real_token_reserves: u64,
    /// True exactly when this trade drove the real token reserve to zero:
    /// the curve is now complete and hand-off to the external liquidity
    /// venue is due.
    pub migration_requested: bool,
}

/// The first reason to reject a sell, in validation order, or `None` when
/// the sell goes through: curve already complete; zero amount; trader short
/// of tokens; curve custody short of tokens; wrong fee recipient; widened
/// token reserve overflowing 64 bits; quote exceeding the real settlement
/// reserve; post-fee settlement under the trader's minimum.
pub open spec fn sell_reject(
    g: Global,
    c: BondingCurve,
    user_token_balance: u64,
    curve_token_balance: u64,
    fee_recipient: u64,
    token_amount: u64,
    min_sol_output: u64,
) -> Option<TradeError> {
    if c.complete {
        Some(TradeError::CurveCompleted)
    } else if token_amount == 0 {
        Some(TradeError::ZeroAmount)
    } else if user_token_balance < token_amount {
        Some(TradeError::InsufficientBalance)
    } else if curve_token_balance < token_amount {
        Some(TradeError::InsufficientLiquidity)
    } else if fee_recipient != g.fee_recipient {
        Some(TradeError::InvalidFeeRecipient)
    } else if c.virtual_token_reserves + token_amount > u64::MAX {
        Some(TradeError::Overflow)
    } else if curve_sell_sol(c, token_amount as int) > c.real_sol_reserves {
        Some(TradeError::InsufficientLiquidity)
    } else if curve_sell_sol(c, token_amount as int) - fee_amount(
        curve_sell_sol(c, token_amount as int),
        g.fee_basis_points as int,
    ) < min_sol_output {
        Some(TradeError::SlippageExceeded)
    } else {
        None
    }
}

/// The first reason to reject a buy, in validation order, or `None` when
/// the buy goes through: curve already complete; zero amount; trader short
/// of settlement asset (the buy costs `sol_in` plus the fee); wrong fee
/// recipient; new virtual settlement reserve exceeding the virtual token
/// reserve (the engine's defensive bound against minting value from the
/// quote's rounding remainder, which also keeps the widened reserve within
/// 64 bits); quote exceeding the real token reserve; quoted tokens under
/// the trader's minimum.
pub open spec fn buy_reject(
    g: Global,
    c: BondingCurve,
    user_sol_balance: u64,
    fee_recipient: u64,
    sol_in: u64,
    min_tokens_out: u64,
) -> Option<TradeError> {
    if c.complete {
        Some(TradeError::CurveCompleted)
    } else if sol_in == 0 {
        Some(TradeError::ZeroAmount)
    } else if user_sol_balance < sol_in + fee_amount(sol_in as int, g.fee_basis_points as int) {
        Some(TradeError::InsufficientBalance)
    } else if fee_recipient != g.fee_recipient {
        Some(TradeError::InvalidFeeRecipient)
    } else if c.virtual_sol_reserves + sol_in > c.virtual_token_reserves {
        Some(TradeError::Overflow)
    } else if curve_buy_tokens(c, sol_in as int) > c.real_token_reserves {
        Some(TradeError::InsufficientLiquidity)
    } else if curve_buy_tokens(c, sol_in as int) < min_tokens_out {
        Some(TradeError::SlippageExceeded)
    } else {
        None
    }
}

/// Seeds a new bonding curve from the global configuration.
///
/// Fails exactly when the configuration is not initialized.  The new curve
/// starts with the configured virtual reserves, an empty real settlement
/// reserve, the configured real token reserve, and is not complete.
pub fn create(global: &Global) -> (r: Result<BondingCurve, TradeError>)
    requires
        global.wf(),
    ensures
        !global.initialized ==> r == Err::<BondingCurve, TradeError>(TradeError::NotInitialized),
        global.initialized ==> (r matches Ok(c) && {
            &&& c.virtual_sol_reserves == global.initial_virtual_sol_reserves
            &&& c.virtual_token_reserves == global.initial_virtual_token_reserves
            &&& c.real_sol_reserves == 0
            &&& c.real_token_reserves == global.initial_real_token_reserves
            &&& c.token_total_supply == global.initial_token_supply
            &&& c.complete == false
            &&& c.wf()
        }),
{
    if !global.initialized {
        return Err(TradeError::NotInitialized);
    }
    Ok(
        BondingCurve {
            virtual_token_reserves: global.initial_virtual_token_reserves,
            virtual_sol_reserves: global.initial_virtual_sol_reserves,
            real_token_reserves: global.initial_real_token_reserves,
            real_sol_reserves: 0,
            token_total_supply: global.initial_token_supply,
            complete: false,
        },
    )
}

/// Whether the curve has completed and hands trades to the external
/// liquidity venue.
pub fn is_complete(curve: &BondingCurve) -> (r: bool)
    ensures
        r == curve.complete,
{
    curve.complete
}

/// Executes a sell: `token_amount` tokens in, settlement asset out.
///
/// Validates in order (see [`sell_reject`]), quotes against the current
/// reserves, takes the fee from the settlement leg after the quote, and
/// commits the new reserves only when every check passes.  A rejected sell
/// leaves the curve untouched.  A committed sell moves both token reserves
/// up by `token_amount` and both settlement reserves down by the quote, so
/// the real token reserve strictly grows; the real settlement reserve
/// strictly shrinks whenever the sell is large enough that its floored
/// payout is positive (`virtual_sol * amount >= virtual_token + amount`).
pub fn sell(
    global: &Global,
    curve: &mut BondingCurve,
    user_token_balance: u64,
    curve_token_balance: u64,
    fee_recipient: u64,
    token_amount: u64,
    min_sol_output: u64,
) -> (r: Result<TradeRecord, TradeError>)
    requires
        global.wf(),
        old(curve).wf(),
    ensures
        (sell_reject(
            *global,
            *old(curve),
            user_token_balance,
            curve_token_balance,
            fee_recipient,
            token_amount,
            min_sol_output,
        ) matches Some(e) ==> r == Err::<TradeRecord, TradeError>(e) && *final(curve) == *old(
            curve,
        )),
        sell_reject(
            *global,
            *old(curve),
            user_token_balance,
            curve_token_balance,
            fee_recipient,
            token_amount,
            min_sol_output,
        ) is None ==> (r matches Ok(rec) && {
            let out = curve_sell_sol(*old(curve), token_amount as int);
            &&& rec.is_buy == false
            &&& rec.sol_amount == out
            &&& rec.token_amount == token_amount
            &&& rec.fee == fee_amount(out, global.fee_basis_points as int)
            &&& rec.virtual_sol_reserves == old(curve).virtual_sol_reserves - out
            &&& rec.virtual_token_reserves == old(curve).virtual_token_reserves + token_amount
            &&& rec.real_sol_reserves == old(curve).real_sol_reserves - out
            &&& rec.real_token_reserves == old(curve).real_token_reserves + token_amount
            &&& rec.migration_requested == (rec.real_token_reserves == 0)
            &&& final(curve).virtual_sol_reserves == rec.virtual_sol_reserves
            &&& final(curve).virtual_token_reserves == rec.virtual_token_reserves
            &&& final(curve).real_sol_reserves == rec.real_sol_reserves
            &&& final(curve).real_token_reserves == rec.real_token_reserves
            &&& final(curve).complete == rec.migration_requested
        }),
        r is Err ==> *final(curve) == *old(curve),
        old(curve).complete ==> r == Err::<TradeRecord, TradeError>(TradeError::CurveCompleted),
        !old(curve).complete && token_amount == 0 ==> r == Err::<TradeRecord, TradeError>(
            TradeError::ZeroAmount,
        ),
        final(curve).wf(),
        final(curve).token_total_supply == old(curve).token_total_supply,
        old(curve).complete ==> final(curve).complete,
        r is Ok ==> final(curve).real_token_reserves > old(curve).real_token_reserves,
        r is Ok && old(curve).virtual_sol_reserves * token_amount >= old(
            curve,
        ).virtual_token_reserves + token_amount ==> final(curve).real_sol_reserves < old(
            curve,
        ).real_sol_reserves,
{
    if curve.complete {
        return Err(TradeError::CurveCompleted);
    }
    if token_amount == 0 {
        return Err(TradeError::ZeroAmount);
    }
    if user_token_balance < token_amount {
        return Err(TradeError::InsufficientBalance);
    }
    if curve_token_balance < token_amount {
        return Err(TradeError::InsufficientLiquidity);
    }
    if fee_recipient != global.fee_recipient {
        return Err(TradeError::InvalidFeeRecipient);
    }
    let quote = match quote_sell(*curve, token_amount) {
        Ok(q) => q,
        Err(e) => {
            return Err(e);
        },
    };
    let fee: u64 = calculate_fee(quote.sol_amount, global.fee_basis_points);
    let net_sol_output: u64 = quote.sol_amount - fee;
    if net_sol_output < min_sol_output {
        return Err(TradeError::SlippageExceeded);
    }
    let migration_requested: bool = quote.real_token_reserves == 0;
    curve.virtual_sol_reserves = quote.virtual_sol_reserves;
    curve.virtual_token_reserves = quote.virtual_token_reserves;
    curve.real_sol_reserves = quote.real_sol_reserves;
    curve.real_token_reserves = quote.real_token_reserves;
    curve.complete = migration_requested;
    Ok(
        TradeRecord {
            is_buy: false,
            sol_amount: quote.sol_amount,
            token_amount,
            fee,
            virtual_sol_reserves: quote.virtual_sol_reserves,
            virtual_token_reserves: quote.virtual_token_reserves,
            real_sol_reserves: quote.real_sol_reserves,
            real_token_reserves: quote.real_token_reserves,
            migration_requested,
        },
    )
}

/// Executes a buy: `sol_in` settlement asset in, tokens out.
///
/// Validates in order (see [`buy_reject`]), quotes against the current
/// reserves, charges the fee on the settlement leg on top of `sol_in`, and
/// commits the new reserves only when every check passes.  A rejected buy
/// leaves the curve untouched.  A committed buy moves both settlement
/// reserves up by `sol_in` and both token reserves down by the quoted
/// tokens; the buy that drives the real token reserve to zero marks the
/// curve complete and requests migration.
pub fn buy(
    global: &Global,
    curve: &mut BondingCurve,
    user_sol_balance: u64,
    fee_recipient: u64,
    sol_in: u64,
    min_tokens_out: u64,
) -> (r: Result<TradeRecord, TradeError>)
    requires
        global.wf(),
        old(curve).wf(),
    ensures
        (buy_reject(
            *global,
            *old(curve),
            user_sol_balance,
            fee_recipient,
            sol_in,
            min_tokens_out,
        ) matches Some(e) ==> r == Err::<TradeRecord, TradeError>(e) && *final(curve) == *old(
            curve,
        )),
        buy_reject(*global, *old(curve), user_sol_balance, fee_recipient, sol_in, min_tokens_out)
            is None ==> (r matches Ok(rec) && {
            let out = curve_buy_tokens(*old(curve), sol_in as int);
            &&& rec.is_buy == true
            &&& rec.sol_amount == sol_in
            &&& rec.token_amount == out
            &&& rec.fee == fee_amount(sol_in as int, global.fee_basis_points as int)
            &&& rec.virtual_sol_reserves == old(curve).virtual_sol_reserves + sol_in
            &&& rec.virtual_token_reserves == old(curve).virtual_token_reserves - out
            &&& rec.real_sol_reserves == old(curve).real_sol_reserves + sol_in
            &&& rec.real_token_reserves == old(curve).real_token_reserves - out
            &&& rec.migration_requested == (rec.real_token_reserves == 0)
            &&& final(curve).virtual_sol_reserves == rec.virtual_sol_reserves
            &&& final(curve).virtual_token_reserves == rec.virtual_token_reserves
            &&& final(curve).real_sol_reserves == rec.real_sol_reserves
            &&& final(curve).real_token_reserves == rec.real_token_reserves
            &&& final(curve).complete == rec.migration_requested
        }),
        r is Err ==> *final(curve) == *old(curve),
        old(curve).complete ==> r == Err::<TradeRecord, TradeError>(TradeError::CurveCompleted),
        !old(curve).complete && sol_in == 0 ==> r == Err::<TradeRecord, TradeError>(
            TradeError::ZeroAmount,
        ),
        final(curve).wf(),
        final(curve).token_total_supply == old(curve).token_total_supply,
        old(curve).complete ==> final(curve).complete,
        r is Ok ==> final(curve).real_token_reserves <= old(curve).real_token_reserves,
        r is Ok ==> final(curve).real_sol_reserves > old(curve).real_sol_reserves,
{
    if curve.complete {
        return Err(TradeError::CurveCompleted);
    }
    if sol_in == 0 {
        return Err(TradeError::ZeroAmount);
    }
    let fee: u64 = calculate_fee(sol_in, global.fee_basis_points);
    let total_cost: u128 = sol_in as u128 + fee as u128;
    if (user_sol_balance as u128) < total_cost {
        return Err(TradeError::InsufficientBalance);
    }
    if fee_recipient != global.fee_recipient {
        return Err(TradeError::InvalidFeeRecipient);
    }
    let quote = match quote_buy(*curve, sol_in) {
        Ok(q) => q,
        Err(e) => {
            return Err(e);
        },
    };
    if quote.token_amount < min_tokens_out {
        return Err(TradeError::SlippageExceeded);
    }
    let migration_requested: bool = quote.real_token_reserves == 0;
    curve.virtual_sol_reserves = quote.virtual_sol_reserves;
    curve.virtual_token_reserves = quote.virtual_token_reserves;
    curve.real_sol_reserves = quote.real_sol_reserves;
    curve.real_token_reserves = quote.real_token_reserves;
    curve.complete = migration_requested;
    Ok(
        TradeRecord {
            is_buy: true,
            sol_amount: sol_in,
            token_amount: quote.token_amount,
            fee,
            virtual_sol_reserves: quote.virtual_sol_reserves,
            virtual_token_reserves: quote.virtual_token_reserves,
            real_sol_reserves: quote.real_sol_reserves,
            real_token_reserves: quote.real_token_reserves,
            migration_requested,
        },
    )
}

} // verus!
