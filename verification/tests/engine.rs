// Tests of the fee calculator and the pricing engine on concrete values.

use curve_launchpad::amm::{quote_buy, quote_sell};
use curve_launchpad::fee::calculate_fee;
use curve_launchpad::state::BondingCurve;
use curve_launchpad::TradeError;

fn small_curve() -> BondingCurve {
    BondingCurve {
        virtual_token_reserves: 400,
        virtual_sol_reserves: 100,
        real_token_reserves: 300,
        real_sol_reserves: 40,
        token_total_supply: 1000,
        complete: false,
    }
}

#[test]
fn fee_one_percent_floors() {
    // 100 basis points is 1%, rounded down.
    assert_eq!(calculate_fee(999, 100), 9);
    assert_eq!(calculate_fee(1000, 100), 10);
    assert_eq!(calculate_fee(99, 100), 0);
    assert_eq!(calculate_fee(12_345_678, 100), 12_345_678 / 100);
}

#[test]
fn fee_edge_rates() {
    assert_eq!(calculate_fee(123_456, 0), 0);
    assert_eq!(calculate_fee(123_456, 10000), 123_456);
    assert_eq!(calculate_fee(0, 10000), 0);
    // No overflow even at the extremes of both ranges.
    assert_eq!(calculate_fee(u64::MAX, 10000), u64::MAX);
    assert_eq!(calculate_fee(u64::MAX, 5000), u64::MAX / 2);
}

#[test]
fn buy_quote_exact() {
    // tokens_out = 400 - (100 * 400) / (100 + 100) = 200.
    let q = quote_buy(small_curve(), 100).unwrap();
    assert_eq!(q.sol_amount, 100);
    assert_eq!(q.token_amount, 200);
    assert_eq!(q.virtual_sol_reserves, 200);
    assert_eq!(q.virtual_token_reserves, 200);
    assert_eq!(q.real_sol_reserves, 140);
    assert_eq!(q.real_token_reserves, 100);
}

#[test]
fn buy_quote_rejects_settlement_crossing_token_reserve() {
    // A buy that would push the virtual settlement reserve past the virtual
    // token reserve is refused outright: past that bound the floored quote's
    // rounding remainder would resell for more than one settlement unit.
    let c = BondingCurve {
        virtual_token_reserves: 12,
        virtual_sol_reserves: 10,
        real_token_reserves: 3,
        real_sol_reserves: 3,
        token_total_supply: 1000,
        complete: false,
    };
    assert_eq!(quote_buy(c, 5), Err(TradeError::Overflow));
    assert!(quote_buy(c, 2).is_ok());
}

#[test]
fn sell_quote_exact() {
    // sol_out = (100 * 100) / (400 + 100) = 20.
    let mut c = small_curve();
    c.real_sol_reserves = 60;
    let q = quote_sell(c, 100).unwrap();
    assert_eq!(q.sol_amount, 20);
    assert_eq!(q.token_amount, 100);
    assert_eq!(q.virtual_sol_reserves, 80);
    assert_eq!(q.virtual_token_reserves, 500);
    assert_eq!(q.real_sol_reserves, 40);
    assert_eq!(q.real_token_reserves, 400);
}

#[test]
fn sell_quote_rounds_payout_down() {
    // The exact payout is 13 * 5 / 25 = 2.6; flooring favors the curve, so
    // the trader receives 2 and the remainder stays in the virtual reserve.
    let c = BondingCurve {
        virtual_token_reserves: 20,
        virtual_sol_reserves: 13,
        real_token_reserves: 6,
        real_sol_reserves: 13,
        token_total_supply: 1000,
        complete: false,
    };
    let q = quote_sell(c, 5).unwrap();
    assert_eq!(q.sol_amount, 2);
    assert_eq!(q.virtual_sol_reserves, 11);
    assert_eq!(q.virtual_token_reserves, 25);
    assert_eq!(q.real_sol_reserves, 11);
    assert_eq!(q.real_token_reserves, 11);
    // The constant product never shrinks across a sell: 11 * 25 >= 13 * 20.
    assert!(
        u128::from(q.virtual_sol_reserves) * u128::from(q.virtual_token_reserves)
            >= u128::from(c.virtual_sol_reserves) * u128::from(c.virtual_token_reserves)
    );
}

#[test]
fn quotes_reject_zero_amount() {
    assert_eq!(quote_buy(small_curve(), 0), Err(TradeError::ZeroAmount));
    assert_eq!(quote_sell(small_curve(), 0), Err(TradeError::ZeroAmount));
}

#[test]
fn quotes_reject_reserves_outgrowing_their_bounds() {
    let c = BondingCurve {
        virtual_token_reserves: u64::MAX,
        virtual_sol_reserves: u64::MAX,
        real_token_reserves: 0,
        real_sol_reserves: 0,
        token_total_supply: 0,
        complete: false,
    };
    assert_eq!(quote_buy(c, 1), Err(TradeError::Overflow));
    assert_eq!(quote_sell(c, 1), Err(TradeError::Overflow));
}

#[test]
fn buy_quote_insufficient_liquidity() {
    // The unclamped quote (200 tokens) exceeds the 10 real tokens left.
    let mut c = small_curve();
    c.real_token_reserves = 10;
    assert_eq!(quote_buy(c, 100), Err(TradeError::InsufficientLiquidity));
}

#[test]
fn sell_quote_insufficient_liquidity() {
    // The quote (20 settlement units) exceeds the 10 real units held.
    let mut c = small_curve();
    c.real_sol_reserves = 10;
    c.real_token_reserves = 0;
    assert_eq!(quote_sell(c, 100), Err(TradeError::InsufficientLiquidity));
}
