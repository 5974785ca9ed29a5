//! The pricing engine: stateless constant-product math on a reserve
//! snapshot, producing buy and sell quotes together with the new reserves.
//!
//! All reserve quantities are widened to 128 bits before multiplying, so the
//! constant-product math cannot overflow even though stored quantities are
//! 64-bit.  A buy floors the constant-product quotient; a sell floors the
//! payout itself, so the settlement side keeps the rounding remainder and a
//! buy immediately undone by a sell never pays out more settlement than went
//! in (see the laws module).

use vstd::arithmetic::div_mod::{
    lemma_div_by_self, lemma_div_is_ordered, lemma_div_multiples_vanish, lemma_div_pos_is_pos,
    lemma_multiply_divide_lt,
};
use vstd::arithmetic::mul::lemma_mul_nonnegative;
use vstd::prelude::*;

use crate::state::BondingCurve;
use crate::TradeError;

verus! {

/// Tokens released by a buy of `sol_in` settlement units against virtual
/// reserves `(virtual_sol, virtual_token)`:
/// `virtual_token - (virtual_sol * virtual_token) / (virtual_sol + sol_in)`.
pub open spec fn buy_tokens_out(virtual_sol: int, virtual_token: int, sol_in: int) -> int {
    virtual_token - (virtual_sol * virtual_token) / (virtual_sol + sol_in)
}

/// Settlement units released by a sell of `tokens_in` tokens against virtual
/// reserves `(virtual_sol, virtual_token)`: the payout
/// `virtual_sol - virtual_sol * virtual_token / (virtual_token + tokens_in)`
/// floored as a whole, which is
/// `(virtual_sol * tokens_in) / (virtual_token + tokens_in)`.  Rounding
/// favors the curve, never the trader: flooring the quotient instead would
/// round the payout up and let a buy-and-sell-back mint settlement out of
/// rounding remainders.
pub open spec fn sell_sol_out(virtual_sol: int, virtual_token: int, tokens_in: int) -> int {
    (virtual_sol * tokens_in) / (virtual_token + tokens_in)
}

/// `buy_tokens_out` on a curve's virtual reserves.
pub open spec fn curve_buy_tokens(c: BondingCurve, sol_in: int) -> int {
    buy_tokens_out(c.virtual_sol_reserves as int, c.virtual_token_reserves as int, sol_in)
}

/// `sell_sol_out` on a curve's virtual reserves.
pub open spec fn curve_sell_sol(c: BondingCurve, tokens_in: int) -> int {
    sell_sol_out(c.virtual_sol_reserves as int, c.virtual_token_reserves as int, tokens_in)
}

/// One trade quote: the two legs of the trade and the reserve values the
/// curve must hold after it.
#[derive(Clone, Copy, Debug, PartialEq, Eq)]
pub struct Quote {
    /// The settlement-asset leg, gross of any fee.
    pub sol_amount: u64,
    /// The token leg.
    pub token_amount: u64,
    /// Virtual settlement reserve after the trade.
    pub virtual_sol_reserves: u64,
    /// Virtual token reserve after the trade.
    pub virtual_token_reserves: u64,
    /// Real settlement reserve after the trade.
    pub real_sol_reserves: u64,
    /// Real token reserve after the trade.
    pub real_token_reserves: u64,
}

/// Bounds on the buy quotient `(vs * vt) / (vs + x)`: it lies between 0 and
/// `vt`, and strictly below `vt` when both sides of the product are positive.
pub proof fn lemma_buy_quotient_bounds(vs: int, vt: int, x: int)
    requires
        0 <= vs,
        0 <= vt,
        1 <= x,
    ensures
        0 <= (vs * vt) / (vs + x) <= vt,
        vt >= 1 ==> (vs * vt) / (vs + x) < vt,
{
    let d: int = vs + x;
    lemma_mul_nonnegative(vs, vt);
    lemma_div_pos_is_pos(vs * vt, d);
    assert(vs * vt <= d * vt) by (nonlinear_arith)
        requires
            vs <= d,
            0 <= vt,
    ;
    lemma_div_is_ordered(vs * vt, d * vt, d);
    lemma_div_multiples_vanish(vt, d);
    if vt >= 1 {
        assert(vs * vt < d * vt) by (nonlinear_arith)
            requires
                vs < d,
                1 <= vt,
        ;
        lemma_multiply_divide_lt(vs * vt, d, vt);
    }
}

/// Bounds on the sell payout `(vs * a) / (vt + a)`: it lies between 0 and
/// `vs`, and is at least one settlement unit exactly when the numerator
/// covers the denominator.
pub proof fn lemma_sell_payout_bounds(vs: int, vt: int, a: int)
    requires
        0 <= vs,
        0 <= vt,
        1 <= a,
    ensures
        0 <= (vs * a) / (vt + a) <= vs,
        vs * a >= vt + a ==> (vs * a) / (vt + a) >= 1,
{
    let d: int = vt + a;
    lemma_mul_nonnegative(vs, a);
    lemma_div_pos_is_pos(vs * a, d);
    assert(vs * a <= d * vs) by (nonlinear_arith)
        requires
            a <= d,
            0 <= vs,
    ;
    lemma_div_is_ordered(vs * a, d * vs, d);
    lemma_div_multiples_vanish(vs, d);
    if vs * a >= d {
        lemma_div_is_ordered(d, vs * a, d);
        lemma_div_by_self(d);
    }
}

/// Quotes a buy of `sol_in` settlement units against the curve snapshot `c`.
///
/// Fails, quoting nothing, when the input is zero, when the new virtual
/// settlement reserve would exceed the virtual token reserve, or when the
/// quoted tokens exceed the curve's real token reserve (no partial fill).
/// The middle check is a defensive bound in the spirit of an overflow guard:
/// past it the fixed floored quotient hands the trader a rounding remainder
/// worth more than one settlement unit, which an immediate sell could mint
/// into free value; within it a buy-and-sell-back returns exactly `sol_in`
/// (see the laws module).  It also keeps the widened settlement reserve
/// within 64 bits, and it never triggers on a curve whose token reserve
/// dominates its settlement reserve, as every seeded configuration's does.
/// On success both settlement reserves grow by `sol_in`, both token reserves
/// shrink by the quoted tokens, and the reserve invariant is preserved.
pub fn quote_buy(c: BondingCurve, sol_in: u64) -> (r: Result<Quote, TradeError>)
    requires
        c.wf(),
    ensures
        sol_in == 0 ==> r == Err::<Quote, TradeError>(TradeError::ZeroAmount),
        sol_in > 0 && c.virtual_sol_reserves + sol_in > c.virtual_token_reserves ==> r == Err::<
            Quote,
            TradeError,
        >(TradeError::Overflow),
        sol_in > 0 && c.virtual_sol_reserves + sol_in <= c.virtual_token_reserves
            && curve_buy_tokens(c, sol_in as int) > c.real_token_reserves ==> r == Err::<
            Quote,
            TradeError,
        >(TradeError::InsufficientLiquidity),
        sol_in > 0 && c.virtual_sol_reserves + sol_in <= c.virtual_token_reserves
            && curve_buy_tokens(c, sol_in as int) <= c.real_token_reserves ==> (r matches Ok(q) && {
            let out = curve_buy_tokens(c, sol_in as int);
            &&& q.sol_amount == sol_in
            &&& q.token_amount == out
            &&& q.virtual_sol_reserves == c.virtual_sol_reserves + sol_in
            &&& q.virtual_token_reserves == c.virtual_token_reserves - out
            &&& q.real_sol_reserves == c.real_sol_reserves + sol_in
            &&& q.real_token_reserves == c.real_token_reserves - out
        }),
        r matches Ok(q) ==> {
            &&& sol_in > 0
            &&& 0 <= curve_buy_tokens(c, sol_in as int) <= c.virtual_token_reserves
            &&& q.virtual_sol_reserves >= q.real_sol_reserves
            &&& q.virtual_token_reserves >= q.real_token_reserves
        },
{
    if sol_in == 0 {
        return Err(TradeError::ZeroAmount);
    }
    let vs: u128 = c.virtual_sol_reserves as u128;
    let vt: u128 = c.virtual_token_reserves as u128;
    let denom: u128 = vs + sol_in as u128;
    if denom > vt {
        return Err(TradeError::Overflow);
    }
    proof {
        assert((vs as int) * (vt as int) <= u128::MAX) by (nonlinear_arith)
            requires
                vs <= u64::MAX,
                vt <= u64::MAX,
        ;
        lemma_buy_quotient_bounds(vs as int, vt as int, sol_in as int);
    }
    let quotient: u128 = (vs * vt) / denom;
    let tokens_out: u128 = vt - quotient;
    if tokens_out > c.real_token_reserves as u128 {
        return Err(TradeError::InsufficientLiquidity);
    }
    Ok(
        Quote {
            sol_amount: sol_in,
            token_amount: tokens_out as u64,
            virtual_sol_reserves: denom as u64,
            virtual_token_reserves: quotient as u64,
            real_sol_reserves: c.real_sol_reserves + sol_in,
            real_token_reserves: c.real_token_reserves - tokens_out as u64,
        },
    )
}

/// Quotes a sell of `tokens_in` tokens against the curve snapshot `c`.
///
/// Fails, quoting nothing, when the input is zero, when the new virtual
/// token reserve would not fit in 64 bits, or when the quoted settlement
/// exceeds the curve's real settlement reserve (no partial fill).  On
/// success both token reserves grow by `tokens_in`, both settlement reserves
/// shrink by the quoted settlement, the reserve invariant is preserved, and
/// the quoted settlement is positive whenever the sell is large enough that
/// the floored payout does not vanish.
pub fn quote_sell(c: BondingCurve, tokens_in: u64) -> (r: Result<Quote, TradeError>)
    requires
        c.wf(),
    ensures
        tokens_in == 0 ==> r == Err::<Quote, TradeError>(TradeError::ZeroAmount),
        tokens_in > 0 && c.virtual_token_reserves + tokens_in > u64::MAX ==> r == Err::<
            Quote,
            TradeError,
        >(TradeError::Overflow),
        tokens_in > 0 && c.virtual_token_reserves + tokens_in <= u64::MAX && curve_sell_sol(
            c,
            tokens_in as int,
        ) > c.real_sol_reserves ==> r == Err::<Quote, TradeError>(TradeError::InsufficientLiquidity),
        tokens_in > 0 && c.virtual_token_reserves + tokens_in <= u64::MAX && curve_sell_sol(
            c,
            tokens_in as int,
        ) <= c.real_sol_reserves ==> (r matches Ok(q) && {
            let out = curve_sell_sol(c, tokens_in as int);
            &&& q.sol_amount == out
            &&& q.token_amount == tokens_in
            &&& q.virtual_sol_reserves == c.virtual_sol_reserves - out
            &&& q.virtual_token_reserves == c.virtual_token_reserves + tokens_in
            &&& q.real_sol_reserves == c.real_sol_reserves - out
            &&& q.real_token_reserves == c.real_token_reserves + tokens_in
        }),
        r matches Ok(q) ==> {
            &&& tokens_in > 0
            &&& 0 <= curve_sell_sol(c, tokens_in as int) <= c.real_sol_reserves
            &&& q.virtual_sol_reserves >= q.real_sol_reserves
            &&& q.virtual_token_reserves >= q.real_token_reserves
            &&& (c.virtual_sol_reserves * tokens_in >= c.virtual_token_reserves + tokens_in
                ==> q.sol_amount >= 1)
        },
{
    if tokens_in == 0 {
        return Err(TradeError::ZeroAmount);
    }
    let vs: u128 = c.virtual_sol_reserves as u128;
    let vt: u128 = c.virtual_token_reserves as u128;
    let denom: u128 = vt + tokens_in as u128;
    if denom > u64::MAX as u128 {
        return Err(TradeError::Overflow);
    }
    proof {
        assert((vs as int) * (tokens_in as int) <= u128::MAX) by (nonlinear_arith)
            requires
                vs <= u64::MAX,
                tokens_in <= u64::MAX,
        ;
        lemma_sell_payout_bounds(vs as int, vt as int, tokens_in as int);
    }
    let sol_out: u128 = (vs * tokens_in as u128) / denom;
    if sol_out > c.real_sol_reserves as u128 {
        return Err(TradeError::InsufficientLiquidity);
    }
    Ok(
        Quote {
            sol_amount: sol_out as u64,
            token_amount: tokens_in,
            virtual_sol_reserves: c.virtual_sol_reserves - sol_out as u64,
            virtual_token_reserves: denom as u64,
            real_sol_reserves: c.real_sol_reserves - sol_out as u64,
            real_token_reserves: c.real_token_reserves + tokens_in,
        },
    )
}

} // verus!
