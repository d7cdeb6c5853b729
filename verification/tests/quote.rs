use token22_swap::error::SwapError;
use token22_swap::quote::{net_of_fee, quote_liquidity, quote_swap, BASIS_POINTS};

#[test]
fn fee_is_taken_off_the_input_rounding_down() {
    assert_eq!(net_of_fee(100, 25), Ok(99));
    assert_eq!(net_of_fee(10_000, 25), Ok(9_975));
    assert_eq!(net_of_fee(1, 25), Ok(0));
    assert_eq!(net_of_fee(0, 25), Ok(0));
    assert_eq!(net_of_fee(400, 25), Ok(399));
    assert_eq!(net_of_fee(399, 9_999), Ok(0));
    assert_eq!(net_of_fee(10_000, 9_999), Ok(1));
}

#[test]
fn zero_fee_takes_nothing() {
    assert_eq!(net_of_fee(0, 0), Ok(0));
    assert_eq!(net_of_fee(12_345, 0), Ok(12_345));
    assert_eq!(net_of_fee(u64::MAX, 0), Ok(u64::MAX));
}

#[test]
fn fee_of_the_largest_amount_does_not_wrap() {
    // floor((2^64 - 1) * 9975 / 10000)
    assert_eq!(net_of_fee(u64::MAX, 25), Ok(18_400_627_213_525_277_735));
    assert_eq!(net_of_fee(u64::MAX, 9_999), Ok(1_844_674_407_370_955));
}

#[test]
fn fee_at_or_above_the_whole_is_invalid() {
    assert_eq!(BASIS_POINTS, 10_000);
    assert_eq!(net_of_fee(100, 10_000), Err(SwapError::InvalidConfig));
    assert_eq!(net_of_fee(100, u64::MAX), Err(SwapError::InvalidConfig));
    assert_eq!(quote_swap(1_000, 1_000, 100, 10_000), Err(SwapError::InvalidConfig));
    assert_eq!(quote_swap(0, 0, 0, 10_001), Err(SwapError::InvalidConfig));
}

#[test]
fn quote_matches_the_constant_product_formula() {
    // net = floor(100 * 9975 / 10000) = 99, out = floor(99 * 1000 / 1099) = 90
    assert_eq!(quote_swap(1_000, 1_000, 100, 25), Ok(90));
    // no fee: out = floor(100 * 1000 / 1100) = 90
    assert_eq!(quote_swap(1_000, 1_000, 100, 0), Ok(90));
    // net = 997, out = floor(997 * 5000 / 2997) = 1663
    assert_eq!(quote_swap(2_000, 5_000, 1_000, 30), Ok(1_663));
    // net = 0
    assert_eq!(quote_swap(1_000, 1_000, 1, 25), Ok(0));
    assert_eq!(quote_swap(1_000, 1_000, 0, 25), Ok(0));
}

#[test]
fn quote_is_the_same_every_time() {
    let first = quote_swap(123_456_789, 987_654_321, 55_555, 25);
    let second = quote_swap(123_456_789, 987_654_321, 55_555, 25);
    assert_eq!(first, second);
    // net = floor(55555 * 9975 / 10000) = 55416
    // out = floor(55416 * 987654321 / (123456789 + 55416)) = 443129
    assert_eq!(first, Ok(443_129));
}

#[test]
fn quote_never_exceeds_the_output_reserve() {
    assert_eq!(quote_swap(1, 1_000, u64::MAX, 0), Ok(999));
    assert_eq!(quote_swap(1_000, 1_000, u64::MAX, 25), Ok(999));
    assert_eq!(quote_swap(u64::MAX, u64::MAX, u64::MAX, 0), Ok(u64::MAX / 2));
    assert_eq!(quote_swap(0, 1_000, 5, 0), Ok(1_000));
    assert_eq!(quote_swap(5, 0, 5, 0), Ok(0));
}

#[test]
fn quote_with_nothing_to_divide_by() {
    assert_eq!(quote_swap(0, 1_000, 0, 25), Err(SwapError::DivisionByZero));
    assert_eq!(quote_swap(0, 0, 0, 0), Err(SwapError::DivisionByZero));
    // the fee eats the whole input
    assert_eq!(quote_swap(0, 1_000, 1, 25), Err(SwapError::DivisionByZero));
}

#[test]
fn first_deposit_earns_the_smaller_amount() {
    assert_eq!(quote_liquidity(100, 50, 0, 0, 0), Ok(50));
    assert_eq!(quote_liquidity(50, 100, 0, 0, 0), Ok(50));
    assert_eq!(quote_liquidity(70, 70, 0, 0, 0), Ok(70));
    assert_eq!(quote_liquidity(0, 100, 0, 0, 0), Ok(0));
    assert_eq!(quote_liquidity(u64::MAX, u64::MAX, 0, 0, 0), Ok(u64::MAX));
    // the reserves play no part while no share exists
    assert_eq!(quote_liquidity(100, 50, 0, 7, 9), Ok(50));
}

#[test]
fn later_deposit_earns_the_smaller_proportional_claim() {
    // min(floor(10 * 50 / 100), floor(10 * 50 / 50)) = min(5, 10)
    assert_eq!(quote_liquidity(10, 10, 50, 100, 50), Ok(5));
    // min(floor(20 * 50 / 100), floor(5 * 50 / 50)) = min(10, 5)
    assert_eq!(quote_liquidity(20, 5, 50, 100, 50), Ok(5));
    // min(floor(7 * 3 / 10), floor(7 * 3 / 2)) = min(2, 10)
    assert_eq!(quote_liquidity(7, 7, 3, 10, 2), Ok(2));
    assert_eq!(quote_liquidity(0, 7, 3, 10, 2), Ok(0));
}

#[test]
fn later_deposit_against_an_empty_reserve() {
    assert_eq!(quote_liquidity(10, 10, 50, 0, 50), Err(SwapError::DivisionByZero));
    assert_eq!(quote_liquidity(10, 10, 50, 100, 0), Err(SwapError::DivisionByZero));
    assert_eq!(quote_liquidity(0, 0, 1, 0, 0), Err(SwapError::DivisionByZero));
}

#[test]
fn shares_that_do_not_fit_are_an_overflow() {
    // both claims are 2^63 * 4 / 1 = 2^65
    assert_eq!(
        quote_liquidity(1 << 63, 1 << 63, 4, 1, 1),
        Err(SwapError::ArithmeticOverflow)
    );
    assert_eq!(
        quote_liquidity(u64::MAX, u64::MAX, u64::MAX, 1, 1),
        Err(SwapError::ArithmeticOverflow)
    );
    // one claim is too large, the smaller one fits and is the result
    assert_eq!(quote_liquidity(1 << 63, 3, 4, 1, 1), Ok(12));
    // the largest product that still fits after the division
    assert_eq!(quote_liquidity(u64::MAX, u64::MAX, u64::MAX, u64::MAX, u64::MAX), Ok(u64::MAX));
}
