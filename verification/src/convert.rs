//! Proportional shares of positions and conversions of dollar amounts into tokens.
use crate::errors::Error;
use crate::math::{
    checked_div, checked_mul, or_overflow, scale_product, scale_to_exponent,
    scale_to_exponent_value, scaled_product_value,
};
use crate::state::OraclePrice;
use vstd::prelude::*;

verus! {

/// A close percentage of `FULL_PERCENTAGE` closes everything; percentages carry six
/// decimals (`100% = 100_000_000`).
pub const FULL_PERCENTAGE: u64 = 100_000_000;

/// The share of `amount` that `percentage` selects, rounded down.
pub open spec fn share(amount: u64, percentage: u64) -> int {
    (amount as int) * (percentage as int) / (FULL_PERCENTAGE as int)
}

/// The part of `amount` that a close of `percentage` removes: all of it for a full
/// close, the share rounded down otherwise.
pub open spec fn portion(amount: u64, percentage: u64) -> u64 {
    if percentage == FULL_PERCENTAGE {
        amount
    } else {
        share(amount, percentage) as u64
    }
}

/// A share of an amount lies between zero and the amount, and a full close takes
/// all of it.
pub proof fn lemma_share_bounds(amount: u64, percentage: u64)
    requires
        percentage <= FULL_PERCENTAGE,
    ensures
        0 <= share(amount, percentage) <= amount,
        portion(amount, percentage) <= amount,
        portion(amount, percentage) as int == if percentage == FULL_PERCENTAGE {
            amount as int
        } else {
            share(amount, percentage)
        },
{
    assert(0 <= share(amount, percentage) <= amount) by (nonlinear_arith)
        requires
            percentage <= 100_000_000,
            0 <= amount,
            share(amount, percentage) == (amount as int) * (percentage as int) / 100_000_000int,
    ;
}

/// The part of `amount` that a close of `percentage` removes.
pub fn close_portion(amount: u64, percentage: u64) -> (r: u64)
    requires
        percentage <= FULL_PERCENTAGE,
    ensures
        r == portion(amount, percentage),
        r <= amount,
{
    proof {
        lemma_share_bounds(amount, percentage);
    }
    if percentage == FULL_PERCENTAGE {
        return amount;
    }
    let wide = (amount as u128) * (percentage as u128);
    assert(wide == (amount as int) * (percentage as int)) by (nonlinear_arith)
        requires
            amount <= u64::MAX,
            percentage <= 100_000_000,
            wide == (amount as int) * (percentage as int),
    ;
    (wide / (FULL_PERCENTAGE as u128)) as u64
}

/// The oracle price written with six decimals; none where that leaves `u64` or
/// the exponent arithmetic leaves `i32`.
pub open spec fn price_e6(oracle: OraclePrice) -> Option<u64> {
    scale_to_exponent_value(oracle.price, oracle.exponent, -6i32)
}

impl OraclePrice {
    /// The price rewritten with `target_exponent`.
    pub fn scale_to_exponent(&self, target_exponent: i32) -> (r: Result<OraclePrice, Error>)
        ensures
            r == (match scale_to_exponent_value(self.price, self.exponent, target_exponent) {
                Some(p) => Ok(OraclePrice { price: p, exponent: target_exponent }),
                None => Err(crate::errors::overflow()),
            }),
    {
        let price = scale_to_exponent(self.price, self.exponent, target_exponent)?;
        Ok(OraclePrice { price, exponent: target_exponent })
    }
}

/// The price that an oracle reports, with six decimals.
pub fn get_oracle_price(price: &OraclePrice) -> (r: Result<u64, Error>)
    ensures
        r == or_overflow(price_e6(*price)),
{
    let scaled = price.scale_to_exponent(-6)?;
    Ok(scaled.price)
}

/// The number of token units (with `decimals`) that `usd` dollars (six decimals) buy
/// at `price` (six decimals), rounded down; none for a zero price or where the
/// amount leaves `u64`.
pub open spec fn usd_to_tokens_value(usd: u64, price: u64, decimals: u8) -> Option<u64> {
    if price == 0 {
        None
    } else {
        scaled_product_value(
            (usd as int) * 1_000_000 / (price as int),
            (decimals as int) - 6,
            false,
        )
    }
}

/// Converts a dollar amount into token units at a price with six decimals.
pub fn usd_to_tokens(usd: u64, price: u64, decimals: u8) -> (r: Result<u64, Error>)
    ensures
        r == or_overflow(usd_to_tokens_value(usd, price, decimals)),
{
    proof {
        assert((usd as int) * 1_000_000 <= u128::MAX) by (nonlinear_arith)
            requires
                usd <= u64::MAX,
        ;
    }
    let scaled = checked_mul(usd as u128, 1_000_000u128)?;
    let amount_6_decimals = checked_div(scaled, price as u128)?;
    let power: i32 = (decimals as i32) - 6;
    scale_product(amount_6_decimals, power, false)
}

/// The token units that `usd` dollars buy at the oracle's price.
pub open spec fn tokens_at_oracle(usd: u64, oracle: OraclePrice, decimals: u8) -> Option<u64> {
    match price_e6(oracle) {
        Some(p) => usd_to_tokens_value(usd, p, decimals),
        None => None,
    }
}

/// Converts a dollar amount into token units at the oracle's price.
pub fn usd_to_tokens_at(usd: u64, oracle: &OraclePrice, decimals: u8) -> (r: Result<u64, Error>)
    ensures
        r == or_overflow(tokens_at_oracle(usd, *oracle, decimals)),
{
    let scaled = oracle.scale_to_exponent(-6)?;
    usd_to_tokens(usd, scaled.price, decimals)
}

} // verus!
