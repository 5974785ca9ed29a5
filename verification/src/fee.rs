//! The fee calculator: a proportional fee from a trade amount and a
//! basis-point rate, with floor rounding.

use vstd::prelude::*;

verus! {

/// The fee owed on `amount` at `fee_basis_points` tenths of a percent:
/// `floor(amount * fee_basis_points / 10000)`.
pub open spec fn fee_amount(amount: int, fee_basis_points: int) -> int {
    amount * fee_basis_points / 10000
}

/// Computes the protocol fee on a settlement-asset amount.
///
/// Rounds down, so the fee never exceeds the amount itself for rates of at
/// most 10000 basis points (100%).
pub fn calculate_fee(amount: u64, fee_basis_points: u64) -> (r: u64)
    requires
        fee_basis_points <= 10000,
    ensures
        r == fee_amount(amount as int, fee_basis_points as int),
        r <= amount,
{
    proof {
        let a: int = amount as int;
        let bps: int = fee_basis_points as int;
        assert(a * bps <= a * 10000) by (nonlinear_arith)
            requires
                0 <= a,
                bps <= 10000,
        ;
        vstd::arithmetic::div_mod::lemma_div_is_ordered(a * bps, a * 10000, 10000);
        vstd::arithmetic::div_mod::lemma_div_multiples_vanish(a, 10000);
        assert(a * 10000 == 10000 * a) by (nonlinear_arith);
        vstd::arithmetic::div_mod::lemma_div_pos_is_pos(a * bps, 10000);
        assert(a * bps >= 0) by (nonlinear_arith)
            requires
                0 <= a,
                0 <= bps,
        ;
    }
    ((amount as u128 * fee_basis_points as u128) / 10000) as u64
}

} // verus!
