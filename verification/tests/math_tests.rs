use option_contract::convert::{close_portion, get_oracle_price, usd_to_tokens, usd_to_tokens_at, FULL_PERCENTAGE};
use option_contract::errors::{Error, MathError};
use option_contract::math::{
    bps_to_scaled, checked_add, checked_as_i64, checked_as_u64, checked_ceil_div, checked_decimal_ceil_mul,
    checked_decimal_div, checked_decimal_mul, checked_div, checked_mul, checked_pow, checked_sub,
    scale_to_exponent, scaled_div, scaled_mul, scaled_to_bps, SCALED_ONE,
};
use option_contract::state::OraclePrice;

fn overflow() -> Error {
    Error::MathError(MathError::MathOverflow)
}

#[test]
fn checked_arithmetic_reports_overflow() {
    assert_eq!(checked_add(2u64, 3u64), Ok(5));
    assert_eq!(checked_add(u64::MAX, 1u64), Err(overflow()));
    assert_eq!(checked_sub(5u64, 3u64), Ok(2));
    assert_eq!(checked_sub(3u64, 5u64), Err(overflow()));
    assert_eq!(checked_sub(-3i64, 5i64), Ok(-8));
    assert_eq!(checked_mul(1u64 << 32, 1u64 << 32), Err(overflow()));
    assert_eq!(checked_mul(7u128, 6u128), Ok(42));
    assert_eq!(checked_div(7u64, 2u64), Ok(3));
    assert_eq!(checked_div(-7i64, 2i64), Ok(-3));
    assert_eq!(checked_div(7u64, 0u64), Err(overflow()));
    assert_eq!(checked_as_u64(-1i64), Err(overflow()));
    assert_eq!(checked_as_u64(u64::MAX as u128 + 1), Err(overflow()));
    assert_eq!(checked_as_u64(42u128), Ok(42));
    assert_eq!(checked_as_i64(u64::MAX), Err(overflow()));
    assert_eq!(checked_as_i64(42u64), Ok(42));
    assert_eq!(checked_pow(10u128, 6), Ok(1_000_000));
    assert_eq!(checked_pow(10u64, 20), Err(overflow()));
}

#[test]
fn ceil_div_rounds_up() {
    assert_eq!(checked_ceil_div(7u64, 2u64), Ok(4));
    assert_eq!(checked_ceil_div(8u64, 2u64), Ok(4));
    assert_eq!(checked_ceil_div(0u64, 5u64), Ok(0));
    assert_eq!(checked_ceil_div(1u64, 0u64), Err(overflow()));
}

#[test]
fn decimal_mul_and_div_convert_between_tokens_and_dollars() {
    // 2 tokens of 9 decimals at 150 dollars are 300 dollars with six decimals.
    assert_eq!(checked_decimal_mul(2_000_000_000, -9, 150_000_000, -6, -6), Ok(300_000_000));
    // 100 dollars at 50 dollars a token are 2 tokens of 9 decimals.
    assert_eq!(checked_decimal_div(100_000_000, -6, 50_000_000, -6, -9), Ok(2_000_000_000));
    assert_eq!(checked_decimal_div(100, -6, 0, -6, -9), Err(overflow()));
    assert_eq!(checked_decimal_div(0, -6, 7, -6, -9), Ok(0));
    assert_eq!(checked_decimal_mul(0, -9, 7, -6, -6), Ok(0));
    // 1 unit at 1.5 rounds down to 1 and up to 2.
    assert_eq!(checked_decimal_mul(1, 0, 15, -1, 0), Ok(1));
    assert_eq!(checked_decimal_ceil_mul(1, 0, 15, -1, 0), Ok(2));
}

#[test]
fn prices_change_exponent() {
    assert_eq!(scale_to_exponent(15_000_000_000, -8, -6), Ok(150_000_000));
    assert_eq!(scale_to_exponent(150, -2, -6), Ok(1_500_000));
    assert_eq!(scale_to_exponent(150, -6, -6), Ok(150));
    assert_eq!(scale_to_exponent(u64::MAX, -6, -9), Err(overflow()));
    let oracle = OraclePrice { price: 15_000_000_000, exponent: -8 };
    assert_eq!(oracle.scale_to_exponent(-6), Ok(OraclePrice { price: 150_000_000, exponent: -6 }));
    assert_eq!(get_oracle_price(&oracle), Ok(150_000_000));
}

#[test]
fn fixed_point_helpers() {
    assert_eq!(scaled_mul(2_500_000, 4_000_000), Ok(10_000_000));
    assert_eq!(scaled_div(10_000_000, 4_000_000), Ok(2_500_000));
    assert_eq!(scaled_div(1, 0), Err(overflow()));
    assert_eq!(scaled_mul(123_456, SCALED_ONE), Ok(123_456));
    assert_eq!(scaled_div(123_456, SCALED_ONE), Ok(123_456));
    assert_eq!(bps_to_scaled(250), Ok(2_500_000));
    assert_eq!(scaled_to_bps(2_500_000), Ok(250));
    assert_eq!(scaled_to_bps(bps_to_scaled(u32::MAX).unwrap()), Ok(u32::MAX));
}

#[test]
fn portions_and_token_conversions() {
    assert_eq!(close_portion(1_000, FULL_PERCENTAGE), 1_000);
    assert_eq!(close_portion(1_000, 50_000_000), 500);
    assert_eq!(close_portion(999, 50_000_000), 499);
    // 300 dollars at 150 dollars a token are 2 tokens of 9 decimals.
    assert_eq!(usd_to_tokens(300_000_000, 150_000_000, 9), Ok(2_000_000_000));
    assert_eq!(usd_to_tokens(300_000_000, 0, 9), Err(overflow()));
    // 300 dollars at 1 dollar are 300 tokens of 6 decimals.
    assert_eq!(usd_to_tokens_at(300_000_000, &OraclePrice { price: 100_000_000, exponent: -8 }, 6), Ok(300_000_000));
}

#[test]
fn rounding_up_a_product_adds_at_most_one_unit() {
    assert_eq!(checked_decimal_mul(15, -1, 15, -1, 0), Ok(2));
    assert_eq!(checked_decimal_ceil_mul(15, -1, 15, -1, 0), Ok(3));
    // An exact product rounds the same either way.
    assert_eq!(checked_decimal_mul(20, -1, 15, -1, 0), Ok(3));
    assert_eq!(checked_decimal_ceil_mul(20, -1, 15, -1, 0), Ok(3));
}

#[test]
fn scaling_to_a_finer_exponent_and_back_round_trips() {
    assert_eq!(scale_to_exponent(150, -2, -6), Ok(1_500_000));
    assert_eq!(scale_to_exponent(1_500_000, -6, -2), Ok(150));
    assert_eq!(scale_to_exponent(0, -2, -30), Err(overflow()));
}
