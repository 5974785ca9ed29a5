//! Laws of the pricing math that relate several operations: how far one
//! trade may move the constant product, and that a buy immediately undone by
//! a sell can never pay out more than it cost.

use vstd::arithmetic::div_mod::{
    lemma_div_pos_is_pos, lemma_fundamental_div_mod, lemma_fundamental_div_mod_converse,
    lemma_mod_division_less_than_divisor,
};
use vstd::arithmetic::mul::lemma_mul_nonnegative;
use vstd::prelude::*;

use crate::amm::{buy_tokens_out, curve_buy_tokens, lemma_buy_quotient_bounds, sell_sol_out};
use crate::executor::buy_reject;
use crate::fee::fee_amount;
use crate::state::{BondingCurve, Global};

verus! {

/// Law: a buy preserves the constant product up to the one floor rounding of
/// its quotient.  The product of the new virtual reserves never exceeds the
/// old product, and falls short of it by less than the new virtual
/// settlement reserve.
pub proof fn lemma_buy_preserves_product(vs: u64, vt: u64, sol_in: u64)
    requires
        1 <= sol_in,
    ensures
        ({
            let new_product = (vs + sol_in) * (vt - buy_tokens_out(
                vs as int,
                vt as int,
                sol_in as int,
            ));
            &&& vs * vt - (vs + sol_in) < new_product
            &&& new_product <= vs * vt
        }),
{
    let d: int = vs as int + sol_in as int;
    lemma_fundamental_div_mod(vs as int * vt as int, d);
    lemma_mod_division_less_than_divisor(vs as int * vt as int, d);
}

/// Law: a sell preserves the constant product up to the one floor rounding
/// of its payout.  The product of the new virtual reserves never falls below
/// the old product, and exceeds it by less than the new virtual token
/// reserve: the rounding remainder stays with the curve.
pub proof fn lemma_sell_preserves_product(vs: u64, vt: u64, tokens_in: u64)
    requires
        1 <= tokens_in,
    ensures
        ({
            let new_product = (vt + tokens_in) * (vs - sell_sol_out(
                vs as int,
                vt as int,
                tokens_in as int,
            ));
            &&& vs * vt <= new_product
            &&& new_product < vs * vt + (vt + tokens_in)
        }),
{
    let s: int = vs as int;
    let t: int = vt as int;
    let a: int = tokens_in as int;
    let d: int = t + a;
    lemma_fundamental_div_mod(s * a, d);
    lemma_mod_division_less_than_divisor(s * a, d);
    let q: int = (s * a) / d;
    assert(d * (s - q) == d * s - d * q) by (nonlinear_arith);
    assert(d * s - s * a == s * t) by (nonlinear_arith)
        requires
            d == t + a,
    ;
}

/// Law: a buy of `sol_in` settlement units followed immediately by a sell of
/// the tokens it released returns exactly `sol_in` gross, hence at most
/// `sol_in` net of the fee, at every fee rate including zero: fees and curve
/// slippage only ever cost the trader, never produce free value.
///
/// The hypothesis `vs + sol_in <= vt` is exactly the defensive bound the
/// pricing engine enforces on every buy (see `quote_buy`), so this law
/// covers every buy the executor commits —
/// [`lemma_committed_buy_round_trip`] states that form.  Past the bound the
/// buy's fixed floored quotient would hand the trader a rounding remainder
/// worth more than one settlement unit, which is why the engine refuses
/// such buys rather than quote them.
pub proof fn lemma_buy_sell_round_trip(vs: u64, vt: u64, sol_in: u64, fee_basis_points: u64)
    requires
        1 <= sol_in,
        vs + sol_in <= vt,
    ensures
        ({
            let out = buy_tokens_out(vs as int, vt as int, sol_in as int);
            let back = sell_sol_out(vs + sol_in, vt - out, out);
            &&& 1 <= out <= vt
            &&& back == sol_in
            &&& back - fee_amount(back, fee_basis_points as int) <= sol_in
        }),
{
    let s: int = vs as int;
    let t: int = vt as int;
    let x: int = sol_in as int;
    let d: int = s + x;
    let p: int = s * t;
    lemma_mul_nonnegative(s, t);
    lemma_fundamental_div_mod(p, d);
    lemma_mod_division_less_than_divisor(p, d);
    let q: int = p / d;
    let rm: int = p % d;
    lemma_buy_quotient_bounds(s, t, x);
    let out: int = t - q;
    assert(1 <= out <= t);
    // The sell after the buy runs against virtual reserves (d, q); its
    // payout divides d * out by q + out == t, and d * out == x * t + rm.
    assert(d * out == d * t - d * q) by (nonlinear_arith)
        requires
            out == t - q,
    ;
    assert(d * t - p == x * t) by (nonlinear_arith)
        requires
            d == s + x,
            p == s * t,
    ;
    assert(d * out == x * t + rm);
    // Dividing x * t + rm by t returns exactly x, since 0 <= rm < d <= t.
    lemma_fundamental_div_mod_converse(x * t + rm, t, x, rm);
    assert(sell_sol_out(d, q, out) == x);
    // The fee can only shave the return further.
    lemma_mul_nonnegative(x, fee_basis_points as int);
    lemma_div_pos_is_pos(x * (fee_basis_points as int), 10000);
}

/// Law: for every buy the executor commits, selling the tokens it released
/// straight back returns exactly the buy amount gross and at most the buy
/// amount net of the fee.  The engine's defensive bound on the buy (see
/// `quote_buy`) discharges the hypothesis of [`lemma_buy_sell_round_trip`]
/// on every committed buy, whatever state the curve reached beforehand.
pub proof fn lemma_committed_buy_round_trip(
    g: Global,
    c: BondingCurve,
    user_sol_balance: u64,
    fee_recipient: u64,
    sol_in: u64,
    min_tokens_out: u64,
)
    requires
        buy_reject(g, c, user_sol_balance, fee_recipient, sol_in, min_tokens_out) is None,
    ensures
        ({
            let out = curve_buy_tokens(c, sol_in as int);
            let back = sell_sol_out(
                c.virtual_sol_reserves + sol_in,
                c.virtual_token_reserves - out,
                out,
            );
            &&& back == sol_in
            &&& back - fee_amount(back, g.fee_basis_points as int) <= sol_in
        }),
{
    lemma_buy_sell_round_trip(
        c.virtual_sol_reserves,
        c.virtual_token_reserves,
        sol_in,
        g.fee_basis_points,
    );
}

} // verus!
