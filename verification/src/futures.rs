//! Dated futures: opening (at market or as a limit order), execution of limit
//! orders, early closing, settlement at expiry and claiming of the settlement.
use crate::convert::{close_portion, portion, tokens_at_oracle, usd_to_tokens_at, FULL_PERCENTAGE};
use crate::errors::{overflow, Error, FutureError, TradingError};
use crate::math::{checked_add, checked_sub};
use crate::perp::{amount_if, backing, payout_decimals, payout_oracle, pnl_portion, realized_pnl};
use crate::state::{AccountKey, Custody, Future, FutureStatus, OraclePrice, Side};
use vstd::prelude::*;

verus! {

/// Parameters of an early close of a future.
#[derive(Debug, Clone, Copy, PartialEq, Eq, Structural)]
pub struct CloseFutureParams {
    pub future_index: u64,
    /// Share to close, with six decimals: `100_000_000` closes the whole future.
    pub close_percentage: u64,
    /// Pay the settlement in SOL (`true`) or USDC.
    pub receive_sol: bool,
    pub max_slippage_bps: u64,
}

/// The amounts that an early close of a future moves.
#[derive(Debug, Clone, Copy, PartialEq, Eq, Structural)]
pub struct FutureCloseReport {
    pub is_full_close: bool,
    pub size_usd_closed: u64,
    pub collateral_amount_closed: u64,
    pub collateral_usd_closed: u64,
    pub locked_released: u64,
    pub realized_pnl: i64,
    /// The settlement fee on the closed size, in dollars.
    pub closing_fee: u64,
    /// Collateral plus realized profit less the fee, floored at zero, in dollars.
    pub settlement_usd: u64,
    /// Tokens paid to the owner in the asset they chose.
    pub settlement_tokens: u64,
    /// The settlement expressed in the future's own asset.
    pub native_exit_tokens: u64,
    /// Collateral tokens returned on top, where the settlement falls short of the
    /// closed collateral: the shortfall in tokens, at most the closed collateral.
    pub remaining_collateral: u64,
}

/// The settlement fee on `size_usd` at `fee_bps` basis points, truncated to `u64`
/// as the contract does.
pub open spec fn fee_on(size_usd: u64, fee_bps: u64) -> u64 {
    ((size_usd as int) * (fee_bps as int) / 10_000) as u64
}

fn compute_fee(size_usd: u64, fee_bps: u64) -> (r: u64)
    ensures
        r == fee_on(size_usd, fee_bps),
{
    proof {
        assert((size_usd as int) * (fee_bps as int) <= u128::MAX) by (nonlinear_arith)
            requires
                size_usd <= u64::MAX,
                fee_bps <= u64::MAX,
        ;
    }
    let wide = (size_usd as u128) * (fee_bps as u128);
    (wide / 10_000u128) as u64
}

/// The error, if any, of the checks that open an early close.
pub open spec fn close_future_check(f: Future, owner: AccountKey, percentage: u64, expired: bool) -> Option<Error> {
    if f.owner != owner {
        Some(Error::TradingError(TradingError::Unauthorized))
    } else if f.status != FutureStatus::Active {
        Some(Error::FutureError(FutureError::FutureNotActive))
    } else if !(0 < percentage <= FULL_PERCENTAGE) {
        Some(Error::TradingError(TradingError::InvalidAmount))
    } else if expired {
        Some(Error::FutureError(FutureError::FutureExpired))
    } else {
        None
    }
}

/// Whether the signed settlement of an early close stays within `i64`.
pub open spec fn future_settlement_fits(collateral_usd: u64, pnl: int, fee: u64) -> bool {
    &&& collateral_usd <= i64::MAX
    &&& fee <= i64::MAX
    &&& i64::MIN <= collateral_usd + pnl <= i64::MAX
    &&& i64::MIN <= collateral_usd + pnl - fee <= i64::MAX
}

/// The settlement of an early close in dollars: collateral plus profit less the
/// fee, floored at zero.
pub open spec fn future_settlement_usd(collateral_usd: u64, pnl: int, fee: u64) -> u64 {
    let net = collateral_usd + pnl - fee;
    if net > 0 {
        net as u64
    } else {
        0
    }
}

/// The tokens that `usd` buys at the oracle, or zero for no dollars.
pub open spec fn tokens_if_any(usd: u64, oracle: OraclePrice, decimals: u8) -> Option<u64> {
    if usd > 0 {
        tokens_at_oracle(usd, oracle, decimals)
    } else {
        Some(0)
    }
}

/// The report of an early close of `percentage` of `f`; none where a conversion
/// leaves its type.
pub open spec fn close_future_report(
    f: Future,
    percentage: u64,
    pnl: i64,
    settlement_fee_bps: u64,
    receive_sol: bool,
    collateral_in_sol: bool,
    sol: Custody,
    usdc: Custody,
    sol_price: OraclePrice,
    usdc_price: OraclePrice,
) -> Option<FutureCloseReport> {
    let size_closed = portion(f.size_usd, percentage);
    let collateral_usd_closed = portion(f.collateral_usd, percentage);
    let collateral_amount_closed = portion(f.collateral_amount, percentage);
    let pnl_closed = pnl_portion(pnl, percentage);
    let fee = fee_on(size_closed, settlement_fee_bps);
    let usd = future_settlement_usd(collateral_usd_closed, pnl_closed, fee);
    let long = f.side == Side::Long;
    let native = tokens_if_any(usd, payout_oracle(long, sol_price, usdc_price), payout_decimals(long, sol, usdc));
    let paid = tokens_if_any(usd, payout_oracle(receive_sol, sol_price, usdc_price), payout_decimals(receive_sol, sol, usdc));
    let remaining = if usd < collateral_usd_closed {
        match tokens_at_oracle(
            (collateral_usd_closed - usd) as u64,
            payout_oracle(collateral_in_sol, sol_price, usdc_price),
            payout_decimals(collateral_in_sol, sol, usdc),
        ) {
            Some(t) => Some(if t <= collateral_amount_closed { t } else { collateral_amount_closed }),
            None => None,
        }
    } else {
        Some(0)
    };
    match (native, paid, remaining) {
        (Some(native), Some(paid), Some(remaining)) => Some(FutureCloseReport {
            is_full_close: percentage == FULL_PERCENTAGE,
            size_usd_closed: size_closed,
            collateral_amount_closed,
            collateral_usd_closed,
            locked_released: portion(f.locked_amount, percentage),
            realized_pnl: pnl_closed as i64,
            closing_fee: fee,
            settlement_usd: usd,
            settlement_tokens: paid,
            native_exit_tokens: native,
            remaining_collateral: remaining,
        }),
        _ => None,
    }
}

/// The future after an early close that `rep` describes.
pub open spec fn future_after_close(f: Future, rep: FutureCloseReport, pnl: i64, price: u64, now: i64) -> Future {
    if rep.is_full_close {
        Future {
            status: FutureStatus::Settled,
            settlement_time: Some(now),
            settlement_price: Some(price),
            pnl_at_settlement: Some(pnl),
            settlement_amount: Some(rep.settlement_usd),
            size_usd: 0,
            collateral_usd: 0,
            collateral_amount: 0,
            locked_amount: 0,
            update_time: now,
            ..f
        }
    } else {
        Future {
            size_usd: (f.size_usd - rep.size_usd_closed) as u64,
            collateral_usd: (f.collateral_usd - rep.collateral_usd_closed) as u64,
            collateral_amount: (f.collateral_amount - rep.collateral_amount_closed) as u64,
            locked_amount: (f.locked_amount - rep.locked_released) as u64,
            update_time: now,
            ..f
        }
    }
}

/// Closes `close_percentage` of an active future before its expiry.
///
/// `expired` is whether the future has reached its expiry, `pnl` its profit or loss
/// at `current_price` (six decimals) and `settlement_fee_bps` the fee charged on
/// the closed size. The owner receives the settlement in the asset they chose and,
/// where it falls short of the closed collateral, the shortfall in collateral
/// tokens; both leave the custodies that pay them. The closed share of the locked
/// liquidity is released. A full close settles the future. On an error nothing
/// changes.
pub fn close_future(
    future: &mut Future,
    sol_custody: &mut Custody,
    usdc_custody: &mut Custody,
    params: &CloseFutureParams,
    owner: AccountKey,
    sol_custody_key: AccountKey,
    expired: bool,
    sol_price: &OraclePrice,
    usdc_price: &OraclePrice,
    current_price: u64,
    pnl: i64,
    settlement_fee_bps: u64,
    current_time: i64,
) -> (r: Result<FutureCloseReport, Error>)
    requires
        close_future_check(*old(future), owner, params.close_percentage, expired) is None ==> pnl > i64::MIN,
        close_future_check(*old(future), owner, params.close_percentage, expired) is None
            ==> future_settlement_fits(
            portion(old(future).collateral_usd, params.close_percentage),
            pnl_portion(pnl, params.close_percentage),
            fee_on(portion(old(future).size_usd, params.close_percentage), settlement_fee_bps),
        ),
    ensures
        ({
            let f = *old(future);
            let sol = *old(sol_custody);
            let usdc = *old(usdc_custody);
            let collateral_in_sol = f.collateral_custody == sol_custody_key;
            let long = f.side == Side::Long;
            match close_future_check(f, owner, params.close_percentage, expired) {
                Some(e) => r == Err::<FutureCloseReport, Error>(e),
                None => match close_future_report(
                    f,
                    params.close_percentage,
                    pnl,
                    settlement_fee_bps,
                    params.receive_sol,
                    collateral_in_sol,
                    sol,
                    usdc,
                    *sol_price,
                    *usdc_price,
                ) {
                    None => r == Err::<FutureCloseReport, Error>(overflow()),
                    Some(rep) => {
                        let sol_out = amount_if(params.receive_sol, rep.settlement_tokens) + amount_if(collateral_in_sol, rep.remaining_collateral);
                        let usdc_out = amount_if(!params.receive_sol, rep.settlement_tokens) + amount_if(!collateral_in_sol, rep.remaining_collateral);
                        if sol_out <= sol.token_owned && usdc_out <= usdc.token_owned
                            && rep.locked_released <= backing(f.side, sol, usdc).token_locked {
                            &&& r == Ok::<FutureCloseReport, Error>(rep)
                            &&& *final(future) == future_after_close(f, rep, pnl, current_price, current_time)
                            &&& *final(sol_custody) == (Custody {
                                token_owned: (sol.token_owned - sol_out) as u64,
                                token_locked: (sol.token_locked - amount_if(long, rep.locked_released)) as u64,
                                ..sol
                            })
                            &&& *final(usdc_custody) == (Custody {
                                token_owned: (usdc.token_owned - usdc_out) as u64,
                                token_locked: (usdc.token_locked - amount_if(!long, rep.locked_released)) as u64,
                                ..usdc
                            })
                        } else {
                            r == Err::<FutureCloseReport, Error>(overflow())
                        }
                    },
                },
            }
        }),
        r is Err ==> {
            &&& *final(future) == *old(future)
            &&& *final(sol_custody) == *old(sol_custody)
            &&& *final(usdc_custody) == *old(usdc_custody)
        },
{
    if future.owner != owner {
        return Err(Error::TradingError(TradingError::Unauthorized));
    }
    if future.status != FutureStatus::Active {
        return Err(Error::FutureError(FutureError::FutureNotActive));
    }
    if !(params.close_percentage > 0 && params.close_percentage <= FULL_PERCENTAGE) {
        return Err(Error::TradingError(TradingError::InvalidAmount));
    }
    if expired {
        return Err(Error::FutureError(FutureError::FutureExpired));
    }
    let pct = params.close_percentage;
    let is_full_close = pct == FULL_PERCENTAGE;
    let size_usd_to_close = close_portion(future.size_usd, pct);
    let collateral_amount_to_close = close_portion(future.collateral_amount, pct);
    let collateral_usd_to_close = close_portion(future.collateral_usd, pct);
    let locked_amount_to_release = close_portion(future.locked_amount, pct);
    let pnl_for_closed_portion = realized_pnl(pnl, pct);
    let closing_fee = compute_fee(size_usd_to_close, settlement_fee_bps);
    let net_settlement = (collateral_usd_to_close as i64) + pnl_for_closed_portion - (closing_fee as i64);
    let settlement_usd = if net_settlement > 0 {
        net_settlement as u64
    } else {
        0
    };
    let long = future.side == Side::Long;
    let native_exit = if settlement_usd > 0 {
        if long {
            usd_to_tokens_at(settlement_usd, sol_price, sol_custody.decimals)?
        } else {
            usd_to_tokens_at(settlement_usd, usdc_price, usdc_custody.decimals)?
        }
    } else {
        0
    };
    let settlement_tokens = if settlement_usd > 0 {
        if params.receive_sol {
            usd_to_tokens_at(settlement_usd, sol_price, sol_custody.decimals)?
        } else {
            usd_to_tokens_at(settlement_usd, usdc_price, usdc_custody.decimals)?
        }
    } else {
        0
    };
    let collateral_in_sol = future.collateral_custody == sol_custody_key;
    let remaining_collateral = if settlement_usd < collateral_usd_to_close {
        let diff_usd = collateral_usd_to_close - settlement_usd;
        let remaining_tokens = if collateral_in_sol {
            usd_to_tokens_at(diff_usd, sol_price, sol_custody.decimals)?
        } else {
            usd_to_tokens_at(diff_usd, usdc_price, usdc_custody.decimals)?
        };
        if remaining_tokens <= collateral_amount_to_close {
            remaining_tokens
        } else {
            collateral_amount_to_close
        }
    } else {
        0
    };
    let mut new_sol_owned = sol_custody.token_owned;
    let mut new_usdc_owned = usdc_custody.token_owned;
    if settlement_tokens > 0 {
        if params.receive_sol {
            new_sol_owned = checked_sub(new_sol_owned, settlement_tokens)?;
        } else {
            new_usdc_owned = checked_sub(new_usdc_owned, settlement_tokens)?;
        }
    }
    let new_sol_locked = if long {
        checked_sub(sol_custody.token_locked, locked_amount_to_release)?
    } else {
        sol_custody.token_locked
    };
    let new_usdc_locked = if long {
        usdc_custody.token_locked
    } else {
        checked_sub(usdc_custody.token_locked, locked_amount_to_release)?
    };
    if remaining_collateral > 0 {
        if collateral_in_sol {
            new_sol_owned = checked_sub(new_sol_owned, remaining_collateral)?;
        } else {
            new_usdc_owned = checked_sub(new_usdc_owned, remaining_collateral)?;
        }
    }
    sol_custody.token_owned = new_sol_owned;
    sol_custody.token_locked = new_sol_locked;
    usdc_custody.token_owned = new_usdc_owned;
    usdc_custody.token_locked = new_usdc_locked;
    if is_full_close {
        future.status = FutureStatus::Settled;
        future.settlement_time = Some(current_time);
        future.settlement_price = Some(current_price);
        future.pnl_at_settlement = Some(pnl);
        future.settlement_amount = Some(settlement_usd);
        future.size_usd = 0;
        future.collateral_usd = 0;
        future.collateral_amount = 0;
        future.locked_amount = 0;
    } else {
        future.size_usd = future.size_usd - size_usd_to_close;
        future.collateral_usd = future.collateral_usd - collateral_usd_to_close;
        future.collateral_amount = future.collateral_amount - collateral_amount_to_close;
        future.locked_amount = future.locked_amount - locked_amount_to_release;
    }
    future.update_time = current_time;
    Ok(
        FutureCloseReport {
            is_full_close,
            size_usd_closed: size_usd_to_close,
            collateral_amount_closed: collateral_amount_to_close,
            collateral_usd_closed: collateral_usd_to_close,
            locked_released: locked_amount_to_release,
            realized_pnl: pnl_for_closed_portion,
            closing_fee,
            settlement_usd,
            settlement_tokens,
            native_exit_tokens: native_exit,
            remaining_collateral,
        },
    )
}

/// Parameters of a new future.
#[derive(Debug, Clone, Copy, PartialEq, Eq, Structural)]
pub struct OpenFutureParams {
    pub side: Side,
    /// Size in dollars (six decimals).
    pub size_usd: u64,
    /// Collateral in tokens.
    pub collateral_amount: u64,
    /// Pay the collateral in SOL (`true`) or USDC.
    pub pay_sol: bool,
    /// Expiry as a unix time.
    pub expiry_timestamp: i64,
    pub max_slippage_bps: u64,
}

/// The fee schedule and margin of futures.
#[derive(Debug, Clone, Copy, PartialEq, Eq, Structural)]
pub struct FutureTerms {
    pub opening_fee_bps: u64,
    pub settlement_fee_bps: u64,
    pub maintenance_margin_bps: u64,
}

/// What the market, the pool's rate curve and the float pricing give for a new
/// future.
#[derive(Debug, Clone, Copy, PartialEq, Eq, Structural)]
pub struct OpenFutureQuote {
    /// The current SOL price with six decimals.
    pub sol_price: u64,
    /// The current USDC price with six decimals.
    pub usdc_price: u64,
    /// Whether the leverage (size over collateral, an integer quotient) is within
    /// the maximum.
    pub leverage_ok: bool,
    /// The fixed rate that the pool locks for the future's size and term.
    pub fixed_rate_bps: u64,
    /// The theoretical future price with six decimals.
    pub future_price: u64,
    /// The liquidation price of the new future.
    pub liquidation_price: u64,
}

/// The addresses that a new future records, and the bump of its own address.
#[derive(Debug, Clone, Copy, PartialEq, Eq, Structural)]
pub struct FutureKeys {
    pub owner: AccountKey,
    pub pool: AccountKey,
    pub sol_custody: AccountKey,
    pub usdc_custody: AccountKey,
    pub bump: u8,
}

/// Parameters of [`execute_limit_future`]: the future's owner and the price at
/// which the keeper executes it.
#[derive(Debug, Clone)]
pub struct ExecuteLimitFutureParams {
    pub future_index: u64,
    pub pool_name: String,
    pub owner: AccountKey,
    pub execution_price: u64,
}

/// Parameters of [`settle_expired_future`].
#[derive(Debug, Clone)]
pub struct SettleExpiredFutureParams {
    pub future_index: u64,
    pub pool_name: String,
    pub owner: AccountKey,
}

/// One year in seconds.
pub const YEAR_SECONDS: i64 = 31_536_000;

/// The error, if any, of the checks on the expiry and the size of a new future.
pub open spec fn open_future_check(params: OpenFutureParams, now: i64) -> Option<Error> {
    if params.expiry_timestamp <= now {
        Some(Error::FutureError(FutureError::InvalidExpiryTime))
    } else if params.expiry_timestamp > now + YEAR_SECONDS {
        Some(Error::FutureError(FutureError::ExpiryTooFar))
    } else if params.expiry_timestamp < now + 3600 {
        Some(Error::FutureError(FutureError::ExpiryTooClose))
    } else if params.size_usd == 0 {
        Some(Error::FutureError(FutureError::InvalidFutureSize))
    } else if params.size_usd < 1_000_000 {
        Some(Error::FutureError(FutureError::FutureSizeTooSmall))
    } else if params.size_usd > 1_000_000_000_000 {
        Some(Error::FutureError(FutureError::FutureSizeTooLarge))
    } else {
        None
    }
}

/// The dollar value of `amount` tokens with `decimals` at `price` (six decimals),
/// truncated to `u64` as the contract does; none where `10^decimals` leaves `u128`.
pub open spec fn token_value_usd(amount: u64, price: u64, decimals: u8) -> Option<u64> {
    if crate::math::pow10(decimals as int) > u128::MAX {
        None
    } else {
        Some((((amount as int) * (price as int)) / crate::math::pow10(decimals as int)) as u64)
    }
}

fn token_value(amount: u64, price: u64, decimals: u8) -> (r: Result<u64, Error>)
    ensures
        r == crate::math::or_overflow(token_value_usd(amount, price, decimals)),
{
    proof {
        assert((amount as int) * (price as int) <= u128::MAX) by (nonlinear_arith)
            requires
                amount <= u64::MAX,
                price <= u64::MAX,
        ;
    }
    let wide = crate::math::checked_mul(amount as u128, price as u128)?;
    let p = crate::math::checked_pow(10u128, decimals as usize)?;
    proof {
        assert(p >= 1) by {
            vstd::arithmetic::power::lemma_pow_positive(10, decimals as nat);
        }
    }
    let v = crate::math::checked_div(wide, p)?;
    Ok(v as u64)
}

/// The new future.
pub open spec fn opened_future(
    params: OpenFutureParams,
    quote: OpenFutureQuote,
    terms: FutureTerms,
    keys: FutureKeys,
    index: u64,
    collateral_usd: u64,
    locked: u64,
    now: i64,
) -> Future {
    Future {
        index,
        owner: keys.owner,
        pool: keys.pool,
        custody: keys.sol_custody,
        collateral_custody: if params.pay_sol {
            keys.sol_custody
        } else {
            keys.usdc_custody
        },
        side: params.side,
        status: FutureStatus::Active,
        entry_price: quote.sol_price,
        future_price: quote.future_price,
        size_usd: params.size_usd,
        collateral_usd,
        collateral_amount: params.collateral_amount,
        open_time: now,
        expiry_time: params.expiry_timestamp,
        update_time: now,
        execution_time: None,
        settlement_time: None,
        fixed_interest_rate_bps: quote.fixed_rate_bps,
        time_to_expiry_at_open: (params.expiry_timestamp - now) as i64,
        liquidation_price: quote.liquidation_price,
        maintenance_margin_bps: terms.maintenance_margin_bps,
        settlement_price: None,
        pnl_at_settlement: None,
        settlement_amount: None,
        opening_fee: fee_on(params.size_usd, terms.opening_fee_bps),
        settlement_fee: fee_on(params.size_usd, terms.settlement_fee_bps),
        locked_amount: locked,
        trigger_price: None,
        trigger_above_threshold: false,
        max_slippage: 0,
        bump: keys.bump,
    }
}

/// Opens a future at the market.
///
/// The expiry must lie between one hour and one year ahead and the size between
/// one and a million dollars. The collateral is valued at the quote's price of the
/// asset it is paid in, less the opening fee, and must leave the leverage within
/// its maximum. The pool must have free liquidity of the side's asset for the
/// size; it is locked, the collateral joins the custody it is paid in, and the
/// trader's future counter grows by one. The caller records the future's term in
/// the pool's rate curve. On an error nothing changes.
pub fn open_future(
    sol_custody: &mut Custody,
    usdc_custody: &mut Custody,
    user_future_index: &mut u64,
    params: &OpenFutureParams,
    quote: &OpenFutureQuote,
    terms: &FutureTerms,
    keys: &FutureKeys,
    sol_oracle: &OraclePrice,
    usdc_oracle: &OraclePrice,
    current_time: i64,
) -> (r: Result<Future, Error>)
    requires
        current_time <= i64::MAX - YEAR_SECONDS,
        open_future_check(*params, current_time) is None ==> {
            let value = if params.pay_sol {
                token_value_usd(params.collateral_amount, quote.sol_price, old(sol_custody).decimals)
            } else {
                token_value_usd(params.collateral_amount, quote.usdc_price, old(usdc_custody).decimals)
            };
            value matches Some(v) ==> v >= fee_on(params.size_usd, terms.opening_fee_bps)
        },
    ensures
        ({
            let sol = *old(sol_custody);
            let usdc = *old(usdc_custody);
            let long = params.side == Side::Long;
            let value = if params.pay_sol {
                token_value_usd(params.collateral_amount, quote.sol_price, sol.decimals)
            } else {
                token_value_usd(params.collateral_amount, quote.usdc_price, usdc.decimals)
            };
            let locked = tokens_at_oracle(params.size_usd, payout_oracle(long, *sol_oracle, *usdc_oracle), payout_decimals(long, sol, usdc));
            let b = backing(params.side, sol, usdc);
            match open_future_check(*params, current_time) {
                Some(e) => r == Err::<Future, Error>(e),
                None => match value {
                    None => r == Err::<Future, Error>(overflow()),
                    Some(v) => {
                        let collateral_usd = (v - fee_on(params.size_usd, terms.opening_fee_bps)) as u64;
                        if collateral_usd == 0 {
                            r == Err::<Future, Error>(overflow())
                        } else if !quote.leverage_ok {
                            r == Err::<Future, Error>(Error::FutureError(FutureError::MaxFutureLeverageExceeded))
                        } else {
                            match locked {
                                None => r == Err::<Future, Error>(overflow()),
                                Some(l) => if b.token_owned < b.token_locked {
                                    r == Err::<Future, Error>(overflow())
                                } else if b.token_owned - b.token_locked < l {
                                    r == Err::<Future, Error>(Error::TradingError(TradingError::InsufficientPoolLiquidity))
                                } else if {
                                    &&& (if params.pay_sol { sol.token_owned } else { usdc.token_owned }) + params.collateral_amount <= u64::MAX
                                    &&& b.token_locked + l <= u64::MAX
                                    &&& *old(user_future_index) < u64::MAX
                                } {
                                    &&& r == Ok::<Future, Error>(opened_future(*params, *quote, *terms, *keys, *old(user_future_index), collateral_usd, l, current_time))
                                    &&& *final(user_future_index) == *old(user_future_index) + 1
                                    &&& *final(sol_custody) == (Custody {
                                        token_owned: (sol.token_owned + amount_if(params.pay_sol, params.collateral_amount)) as u64,
                                        token_locked: (sol.token_locked + amount_if(long, l)) as u64,
                                        ..sol
                                    })
                                    &&& *final(usdc_custody) == (Custody {
                                        token_owned: (usdc.token_owned + amount_if(!params.pay_sol, params.collateral_amount)) as u64,
                                        token_locked: (usdc.token_locked + amount_if(!long, l)) as u64,
                                        ..usdc
                                    })
                                } else {
                                    r == Err::<Future, Error>(overflow())
                                },
                            }
                        }
                    },
                },
            }
        }),
        r is Err ==> {
            &&& *final(sol_custody) == *old(sol_custody)
            &&& *final(usdc_custody) == *old(usdc_custody)
            &&& *final(user_future_index) == *old(user_future_index)
        },
{
    if params.expiry_timestamp <= current_time {
        return Err(Error::FutureError(FutureError::InvalidExpiryTime));
    }
    let max_expiry = current_time + YEAR_SECONDS;
    if params.expiry_timestamp > max_expiry {
        return Err(Error::FutureError(FutureError::ExpiryTooFar));
    }
    let min_expiry = current_time + 3600;
    if params.expiry_timestamp < min_expiry {
        return Err(Error::FutureError(FutureError::ExpiryTooClose));
    }
    let time_to_expiry = params.expiry_timestamp - current_time;
    if params.size_usd == 0 {
        return Err(Error::FutureError(FutureError::InvalidFutureSize));
    }
    if params.size_usd < 1_000_000 {
        return Err(Error::FutureError(FutureError::FutureSizeTooSmall));
    }
    if params.size_usd > 1_000_000_000_000 {
        return Err(Error::FutureError(FutureError::FutureSizeTooLarge));
    }
    let opening_fee = compute_fee(params.size_usd, terms.opening_fee_bps);
    let settlement_fee = compute_fee(params.size_usd, terms.settlement_fee_bps);
    let value = if params.pay_sol {
        token_value(params.collateral_amount, quote.sol_price, sol_custody.decimals)?
    } else {
        token_value(params.collateral_amount, quote.usdc_price, usdc_custody.decimals)?
    };
    let collateral_usd = value - opening_fee;
    let _leverage = crate::math::checked_div(params.size_usd as u128, collateral_usd as u128)?;
    if !quote.leverage_ok {
        return Err(Error::FutureError(FutureError::MaxFutureLeverageExceeded));
    }
    if collateral_usd == 0 {
        return Err(Error::FutureError(FutureError::InsufficientCollateralForFuture));
    }
    let long = params.side == Side::Long;
    let locked_amount = if long {
        usd_to_tokens_at(params.size_usd, sol_oracle, sol_custody.decimals)?
    } else {
        usd_to_tokens_at(params.size_usd, usdc_oracle, usdc_custody.decimals)?
    };
    let available_liquidity = if long {
        checked_sub(sol_custody.token_owned, sol_custody.token_locked)?
    } else {
        checked_sub(usdc_custody.token_owned, usdc_custody.token_locked)?
    };
    if available_liquidity < locked_amount {
        return Err(Error::TradingError(TradingError::InsufficientPoolLiquidity));
    }
    let new_sol_owned = if params.pay_sol {
        checked_add(sol_custody.token_owned, params.collateral_amount)?
    } else {
        sol_custody.token_owned
    };
    let new_usdc_owned = if params.pay_sol {
        usdc_custody.token_owned
    } else {
        checked_add(usdc_custody.token_owned, params.collateral_amount)?
    };
    let new_sol_locked = if long {
        checked_add(sol_custody.token_locked, locked_amount)?
    } else {
        sol_custody.token_locked
    };
    let new_usdc_locked = if long {
        usdc_custody.token_locked
    } else {
        checked_add(usdc_custody.token_locked, locked_amount)?
    };
    let index = *user_future_index;
    let next_index = checked_add(index, 1u64)?;
    let future = Future {
        index,
        owner: keys.owner,
        pool: keys.pool,
        custody: keys.sol_custody,
        collateral_custody: if params.pay_sol {
            keys.sol_custody
        } else {
            keys.usdc_custody
        },
        side: params.side,
        status: FutureStatus::Active,
        entry_price: quote.sol_price,
        future_price: quote.future_price,
        size_usd: params.size_usd,
        collateral_usd,
        collateral_amount: params.collateral_amount,
        open_time: current_time,
        expiry_time: params.expiry_timestamp,
        update_time: current_time,
        execution_time: None,
        settlement_time: None,
        fixed_interest_rate_bps: quote.fixed_rate_bps,
        time_to_expiry_at_open: time_to_expiry,
        liquidation_price: quote.liquidation_price,
        maintenance_margin_bps: terms.maintenance_margin_bps,
        settlement_price: None,
        pnl_at_settlement: None,
        settlement_amount: None,
        opening_fee,
        settlement_fee,
        locked_amount,
        trigger_price: None,
        trigger_above_threshold: false,
        max_slippage: 0,
        bump: keys.bump,
    };
    sol_custody.token_owned = new_sol_owned;
    sol_custody.token_locked = new_sol_locked;
    usdc_custody.token_owned = new_usdc_owned;
    usdc_custody.token_locked = new_usdc_locked;
    *user_future_index = next_index;
    Ok(future)
}

/// Parameters of a future opened as a limit order.
#[derive(Debug, Clone, Copy, PartialEq, Eq, Structural)]
pub struct OpenLimitFutureParams {
    pub size_usd: u64,
    pub collateral_amount: u64,
    pub side: Side,
    pub expiry_timestamp: i64,
    /// Execute once SOL reaches this price (six decimals).
    pub trigger_price: u64,
    /// Execute at or above (`true`) or at or below the trigger price.
    pub trigger_above_threshold: bool,
    /// Largest slippage at execution, in basis points.
    pub max_slippage: u64,
    pub pay_sol: bool,
}

/// What the market, the pool's rate curve and the float pricing give for a limit
/// future.
#[derive(Debug, Clone, Copy, PartialEq, Eq, Structural)]
pub struct LimitFutureQuote {
    /// The collateral's value in dollars at its oracle price.
    pub collateral_usd: u64,
    /// The fixed rate that the pool locks for the future's size and term.
    pub fixed_rate_bps: u64,
    /// The future price at the trigger price, with six decimals.
    pub future_price: u64,
}

/// The error, if any, of the checks of a limit future up to its trigger price, where
/// `price` is the current SOL price with six decimals: the trigger must lie within
/// half of it.
pub open spec fn limit_future_check(params: OpenLimitFutureParams, now: i64, price: Option<u64>) -> Option<Error> {
    if params.expiry_timestamp <= now {
        Some(Error::FutureError(FutureError::InvalidExpiryTime))
    } else if params.expiry_timestamp > now + YEAR_SECONDS {
        Some(Error::FutureError(FutureError::ExpiryTooFar))
    } else {
        match price {
            None => Some(overflow()),
            Some(p) => {
                let tolerance = p / 2;
                let low = p - tolerance;
                let high = if p + tolerance <= u64::MAX { p + tolerance } else { u64::MAX as int };
                if !(low <= params.trigger_price <= high) {
                    Some(Error::TradingError(TradingError::InvalidAmount))
                } else {
                    None
                }
            },
        }
    }
}

/// The new pending future.
pub open spec fn pending_future(
    params: OpenLimitFutureParams,
    quote: LimitFutureQuote,
    keys: FutureKeys,
    index: u64,
    locked: u64,
    now: i64,
) -> Future {
    Future {
        index,
        owner: keys.owner,
        pool: keys.pool,
        custody: keys.sol_custody,
        collateral_custody: if params.pay_sol {
            keys.sol_custody
        } else {
            keys.usdc_custody
        },
        side: params.side,
        status: FutureStatus::Pending,
        entry_price: params.trigger_price,
        future_price: quote.future_price,
        size_usd: params.size_usd,
        collateral_usd: quote.collateral_usd,
        collateral_amount: params.collateral_amount,
        open_time: now,
        expiry_time: params.expiry_timestamp,
        update_time: now,
        execution_time: None,
        settlement_time: None,
        fixed_interest_rate_bps: quote.fixed_rate_bps,
        time_to_expiry_at_open: 0,
        liquidation_price: 0,
        maintenance_margin_bps: 0,
        settlement_price: None,
        pnl_at_settlement: None,
        settlement_amount: None,
        opening_fee: 0,
        settlement_fee: 0,
        locked_amount: locked,
        trigger_price: Some(params.trigger_price),
        trigger_above_threshold: params.trigger_above_threshold,
        max_slippage: params.max_slippage,
        bump: keys.bump,
    }
}

/// Opens a future as a limit order, to execute when SOL reaches its trigger price.
///
/// The expiry must lie in the coming year, the trigger within half of the current
/// price, and the collateral worth at least a tenth of the size. The pool must
/// have free liquidity for the size, which is only recorded, not locked, until the
/// order executes. The collateral joins the custody it is paid in, and the
/// trader's future counter grows by one. The caller records the future's term in
/// the pool's rate curve. On an error nothing changes.
pub fn open_limit_future(
    sol_custody: &mut Custody,
    usdc_custody: &mut Custody,
    user_future_index: &mut u64,
    params: &OpenLimitFutureParams,
    quote: &LimitFutureQuote,
    keys: &FutureKeys,
    sol_oracle: &OraclePrice,
    usdc_oracle: &OraclePrice,
    current_time: i64,
) -> (r: Result<Future, Error>)
    requires
        current_time <= i64::MAX - YEAR_SECONDS,
    ensures
        ({
            let sol = *old(sol_custody);
            let usdc = *old(usdc_custody);
            let long = params.side == Side::Long;
            let locked = tokens_at_oracle(params.size_usd, payout_oracle(long, *sol_oracle, *usdc_oracle), payout_decimals(long, sol, usdc));
            let b = backing(params.side, sol, usdc);
            match limit_future_check(*params, current_time, crate::convert::price_e6(*sol_oracle)) {
                Some(e) => r == Err::<Future, Error>(e),
                None => if quote.collateral_usd < params.size_usd / 10 {
                    r == Err::<Future, Error>(Error::TradingError(TradingError::InsufficientBalance))
                } else {
                    match locked {
                        None => r == Err::<Future, Error>(overflow()),
                        Some(l) => if b.token_owned < b.token_locked {
                            r == Err::<Future, Error>(overflow())
                        } else if b.token_owned - b.token_locked < l {
                            r == Err::<Future, Error>(Error::TradingError(TradingError::InsufficientPoolLiquidity))
                        } else if {
                            &&& (if params.pay_sol { sol.token_owned } else { usdc.token_owned }) + params.collateral_amount <= u64::MAX
                            &&& *old(user_future_index) < u64::MAX
                        } {
                            &&& r == Ok::<Future, Error>(pending_future(*params, *quote, *keys, *old(user_future_index), l, current_time))
                            &&& *final(user_future_index) == *old(user_future_index) + 1
                            &&& *final(sol_custody) == (Custody {
                                token_owned: (sol.token_owned + amount_if(params.pay_sol, params.collateral_amount)) as u64,
                                ..sol
                            })
                            &&& *final(usdc_custody) == (Custody {
                                token_owned: (usdc.token_owned + amount_if(!params.pay_sol, params.collateral_amount)) as u64,
                                ..usdc
                            })
                        } else {
                            r == Err::<Future, Error>(overflow())
                        },
                    }
                },
            }
        }),
        r is Err ==> {
            &&& *final(sol_custody) == *old(sol_custody)
            &&& *final(usdc_custody) == *old(usdc_custody)
            &&& *final(user_future_index) == *old(user_future_index)
        },
{
    if params.expiry_timestamp <= current_time {
        return Err(Error::FutureError(FutureError::InvalidExpiryTime));
    }
    let max_expiry = current_time + YEAR_SECONDS;
    if params.expiry_timestamp > max_expiry {
        return Err(Error::FutureError(FutureError::ExpiryTooFar));
    }
    let current_sol_price_scaled = sol_oracle.scale_to_exponent(-6)?.price;
    let price_tolerance = current_sol_price_scaled / 2;
    if !(params.trigger_price >= current_sol_price_scaled.saturating_sub(price_tolerance)
        && params.trigger_price <= current_sol_price_scaled.saturating_add(price_tolerance)) {
        return Err(Error::TradingError(TradingError::InvalidAmount));
    }
    let min_collateral = params.size_usd / 10;
    if quote.collateral_usd < min_collateral {
        return Err(Error::TradingError(TradingError::InsufficientBalance));
    }
    let long = params.side == Side::Long;
    let locked_amount = if long {
        usd_to_tokens_at(params.size_usd, sol_oracle, sol_custody.decimals)?
    } else {
        usd_to_tokens_at(params.size_usd, usdc_oracle, usdc_custody.decimals)?
    };
    let available_liquidity = if long {
        checked_sub(sol_custody.token_owned, sol_custody.token_locked)?
    } else {
        checked_sub(usdc_custody.token_owned, usdc_custody.token_locked)?
    };
    if available_liquidity < locked_amount {
        return Err(Error::TradingError(TradingError::InsufficientPoolLiquidity));
    }
    let new_sol_owned = if params.pay_sol {
        checked_add(sol_custody.token_owned, params.collateral_amount)?
    } else {
        sol_custody.token_owned
    };
    let new_usdc_owned = if params.pay_sol {
        usdc_custody.token_owned
    } else {
        checked_add(usdc_custody.token_owned, params.collateral_amount)?
    };
    let index = *user_future_index;
    let next_index = checked_add(index, 1u64)?;
    let future = Future {
        index,
        owner: keys.owner,
        pool: keys.pool,
        custody: keys.sol_custody,
        collateral_custody: if params.pay_sol {
            keys.sol_custody
        } else {
            keys.usdc_custody
        },
        side: params.side,
        status: FutureStatus::Pending,
        entry_price: params.trigger_price,
        future_price: quote.future_price,
        size_usd: params.size_usd,
        collateral_usd: quote.collateral_usd,
        collateral_amount: params.collateral_amount,
        open_time: current_time,
        expiry_time: params.expiry_timestamp,
        update_time: current_time,
        execution_time: None,
        settlement_time: None,
        fixed_interest_rate_bps: quote.fixed_rate_bps,
        time_to_expiry_at_open: 0,
        liquidation_price: 0,
        maintenance_margin_bps: 0,
        settlement_price: None,
        pnl_at_settlement: None,
        settlement_amount: None,
        opening_fee: 0,
        settlement_fee: 0,
        locked_amount,
        trigger_price: Some(params.trigger_price),
        trigger_above_threshold: params.trigger_above_threshold,
        max_slippage: params.max_slippage,
        bump: keys.bump,
    };
    sol_custody.token_owned = new_sol_owned;
    usdc_custody.token_owned = new_usdc_owned;
    *user_future_index = next_index;
    Ok(future)
}

/// The error, if any, of the execution of a pending future at `execution_price`,
/// where `price` is the current SOL price with six decimals: the trigger must have
/// fired and the execution price must lie within the future's slippage of it.
pub open spec fn execute_limit_future_check(f: Future, owner: AccountKey, expired: bool, price: Option<u64>, execution_price: u64) -> Option<Error> {
    if f.owner != owner {
        Some(Error::TradingError(TradingError::Unauthorized))
    } else if f.status != FutureStatus::Pending {
        Some(Error::FutureError(FutureError::FutureNotPending))
    } else if expired {
        Some(Error::FutureError(FutureError::FutureExpired))
    } else {
        match price {
            None => Some(overflow()),
            Some(p) => match f.trigger_price {
                None => Some(Error::FutureError(FutureError::NoTriggerPrice)),
                Some(t) => {
                    let fired = if f.trigger_above_threshold { p >= t } else { p <= t };
                    let diff = if execution_price > t { execution_price - t } else { t - execution_price };
                    if !fired {
                        Some(Error::FutureError(FutureError::TriggerConditionNotMet))
                    } else if (t as int) * (f.max_slippage as int) > u128::MAX {
                        Some(overflow())
                    } else if diff > (t as int) * (f.max_slippage as int) / 10_000 {
                        Some(Error::TradingError(TradingError::SlippageExceededError))
                    } else {
                        None
                    }
                },
            },
        }
    }
}

/// Executes a pending future whose trigger price SOL has reached.
///
/// `future_price` and `liquidation_price` are the future price and liquidation
/// price at the execution price. The future becomes active at `params.execution_price`,
/// and its liquidity is locked in the side's custody, after which neither custody
/// may hold more locked than owned tokens. On an error nothing changes.
pub fn execute_limit_future(
    future: &mut Future,
    sol_custody: &mut Custody,
    usdc_custody: &mut Custody,
    params: &ExecuteLimitFutureParams,
    expired: bool,
    sol_oracle: &OraclePrice,
    future_price: u64,
    liquidation_price: u64,
    current_time: i64,
) -> (r: Result<(), Error>)
    ensures
        ({
            let f = *old(future);
            let sol = *old(sol_custody);
            let usdc = *old(usdc_custody);
            let long = f.side == Side::Long;
            let new_sol = Custody { token_locked: (sol.token_locked + amount_if(long, f.locked_amount)) as u64, ..sol };
            let new_usdc = Custody { token_locked: (usdc.token_locked + amount_if(!long, f.locked_amount)) as u64, ..usdc };
            let nb = backing(f.side, new_sol, new_usdc);
            match execute_limit_future_check(f, params.owner, expired, crate::convert::price_e6(*sol_oracle), params.execution_price) {
                Some(e) => r == Err::<(), Error>(e),
                None => if backing(f.side, sol, usdc).token_locked + f.locked_amount > u64::MAX || nb.token_owned < nb.token_locked {
                    r == Err::<(), Error>(overflow())
                } else if new_sol.token_locked > new_sol.token_owned || new_usdc.token_locked > new_usdc.token_owned {
                    r == Err::<(), Error>(Error::TradingError(TradingError::InsufficientPoolLiquidity))
                } else {
                    &&& r == Ok::<(), Error>(())
                    &&& *final(future) == (Future {
                        entry_price: params.execution_price,
                        status: FutureStatus::Active,
                        execution_time: Some(current_time),
                        update_time: current_time,
                        future_price,
                        liquidation_price,
                        ..f
                    })
                    &&& *final(sol_custody) == new_sol
                    &&& *final(usdc_custody) == new_usdc
                },
            }
        }),
        r is Err ==> {
            &&& *final(future) == *old(future)
            &&& *final(sol_custody) == *old(sol_custody)
            &&& *final(usdc_custody) == *old(usdc_custody)
        },
{
    if future.owner != params.owner {
        return Err(Error::TradingError(TradingError::Unauthorized));
    }
    if future.status != FutureStatus::Pending {
        return Err(Error::FutureError(FutureError::FutureNotPending));
    }
    if expired {
        return Err(Error::FutureError(FutureError::FutureExpired));
    }
    let current_price_scaled = sol_oracle.scale_to_exponent(-6)?.price;
    let trigger_price = match future.trigger_price {
        Some(t) => t,
        None => {
            return Err(Error::FutureError(FutureError::NoTriggerPrice));
        },
    };
    let trigger_met = if future.trigger_above_threshold {
        current_price_scaled >= trigger_price
    } else {
        current_price_scaled <= trigger_price
    };
    if !trigger_met {
        return Err(Error::FutureError(FutureError::TriggerConditionNotMet));
    }
    let price_diff = if params.execution_price > trigger_price {
        params.execution_price - trigger_price
    } else {
        trigger_price - params.execution_price
    };
    let max_slippage_amount = crate::math::checked_div(
        crate::math::checked_mul(trigger_price as u128, future.max_slippage as u128)?,
        10_000u128,
    )?;
    if price_diff as u128 > max_slippage_amount {
        return Err(Error::TradingError(TradingError::SlippageExceededError));
    }
    let long = future.side == Side::Long;
    let new_sol_locked = if long {
        checked_add(sol_custody.token_locked, future.locked_amount)?
    } else {
        sol_custody.token_locked
    };
    let new_usdc_locked = if long {
        usdc_custody.token_locked
    } else {
        checked_add(usdc_custody.token_locked, future.locked_amount)?
    };
    let _available = if long {
        checked_sub(sol_custody.token_owned, new_sol_locked)?
    } else {
        checked_sub(usdc_custody.token_owned, new_usdc_locked)?
    };
    if !(new_sol_locked <= sol_custody.token_owned && new_usdc_locked <= usdc_custody.token_owned) {
        return Err(Error::TradingError(TradingError::InsufficientPoolLiquidity));
    }
    future.entry_price = params.execution_price;
    future.status = FutureStatus::Active;
    future.execution_time = Some(current_time);
    future.update_time = current_time;
    future.future_price = future_price;
    future.liquidation_price = liquidation_price;
    sol_custody.token_locked = new_sol_locked;
    usdc_custody.token_locked = new_usdc_locked;
    Ok(())
}

/// The error of claiming the settlement of `f` as `owner`: the future must be the
/// owner's, settled or liquidated, with a settlement that is not yet claimed.
pub open spec fn claim_future_check(f: Future, owner: AccountKey) -> Option<Error> {
    if f.owner != owner {
        Some(Error::TradingError(TradingError::Unauthorized))
    } else if !(f.status == FutureStatus::Settled || f.status == FutureStatus::Liquidated) {
        Some(Error::FutureError(FutureError::FutureNotClaimable))
    } else {
        match f.settlement_amount {
            None => Some(Error::FutureError(FutureError::SettlementNotAvailable)),
            Some(amount) => if amount == 0 {
                Some(Error::FutureError(FutureError::NothingToClaim))
            } else {
                None
            },
        }
    }
}

/// Pays out a future that its settlement has left with a positive settlement
/// amount, in the asset of its collateral.
///
/// The settlement amount is converted at the collateral's oracle price; the tokens
/// leave its custody and the settlement amount drops to zero, so a second claim
/// finds nothing. The result is the number of tokens paid. On an error nothing
/// changes.
pub fn claim_future(
    future: &mut Future,
    sol_custody: &mut Custody,
    usdc_custody: &mut Custody,
    owner: AccountKey,
    sol_custody_key: AccountKey,
    sol_oracle: &OraclePrice,
    usdc_oracle: &OraclePrice,
    current_time: i64,
) -> (r: Result<u64, Error>)
    ensures
        ({
            let f = *old(future);
            let sol = *old(sol_custody);
            let usdc = *old(usdc_custody);
            let in_sol = f.collateral_custody == sol_custody_key;
            match claim_future_check(f, owner) {
                Some(e) => r == Err::<u64, Error>(e),
                None => {
                    let amount = f.settlement_amount.unwrap();
                    match tokens_at_oracle(amount, payout_oracle(in_sol, *sol_oracle, *usdc_oracle), payout_decimals(in_sol, sol, usdc)) {
                        None => r == Err::<u64, Error>(overflow()),
                        Some(t) => if t > (if in_sol { sol.token_owned } else { usdc.token_owned }) {
                            r == Err::<u64, Error>(overflow())
                        } else {
                            &&& r == Ok::<u64, Error>(t)
                            &&& *final(future) == (Future { settlement_amount: Some(0), update_time: current_time, ..f })
                            &&& *final(sol_custody) == (Custody { token_owned: (sol.token_owned - amount_if(in_sol, t)) as u64, ..sol })
                            &&& *final(usdc_custody) == (Custody { token_owned: (usdc.token_owned - amount_if(!in_sol, t)) as u64, ..usdc })
                        },
                    }
                },
            }
        }),
        r is Err ==> {
            &&& *final(future) == *old(future)
            &&& *final(sol_custody) == *old(sol_custody)
            &&& *final(usdc_custody) == *old(usdc_custody)
        },
{
    if future.owner != owner {
        return Err(Error::TradingError(TradingError::Unauthorized));
    }
    if !(future.status == FutureStatus::Settled || future.status == FutureStatus::Liquidated) {
        return Err(Error::FutureError(FutureError::FutureNotClaimable));
    }
    let settlement_amount = match future.settlement_amount {
        Some(a) => a,
        None => {
            return Err(Error::FutureError(FutureError::SettlementNotAvailable));
        },
    };
    if settlement_amount == 0 {
        return Err(Error::FutureError(FutureError::NothingToClaim));
    }
    let in_sol = future.collateral_custody == sol_custody_key;
    let claim_tokens = if in_sol {
        usd_to_tokens_at(settlement_amount, sol_oracle, sol_custody.decimals)?
    } else {
        usd_to_tokens_at(settlement_amount, usdc_oracle, usdc_custody.decimals)?
    };
    if claim_tokens > 0 {
        if in_sol {
            sol_custody.token_owned = checked_sub(sol_custody.token_owned, claim_tokens)?;
        } else {
            usdc_custody.token_owned = checked_sub(usdc_custody.token_owned, claim_tokens)?;
        }
    }
    future.settlement_amount = Some(0);
    future.update_time = current_time;
    Ok(claim_tokens)
}

/// Pays out the settlement of an expired future and releases its liquidity.
///
/// `expired` is whether the future has reached its expiry and `settlement_amount`
/// the dollar amount that its settlement at the expiry price gives the owner. That
/// amount is converted at the collateral's oracle price and leaves the collateral's
/// custody; the future's whole locked liquidity is released. The caller records
/// the settlement on the future and removes it from the pool's rate curve. The
/// result is the number of tokens paid. On an error nothing changes.
pub fn settle_expired_future(
    future: &Future,
    sol_custody: &mut Custody,
    usdc_custody: &mut Custody,
    params: &SettleExpiredFutureParams,
    sol_custody_key: AccountKey,
    expired: bool,
    sol_oracle: &OraclePrice,
    usdc_oracle: &OraclePrice,
    settlement_amount: u64,
) -> (r: Result<u64, Error>)
    ensures
        ({
            let f = *future;
            let sol = *old(sol_custody);
            let usdc = *old(usdc_custody);
            let in_sol = f.collateral_custody == sol_custody_key;
            let long = f.side == Side::Long;
            if f.owner != params.owner {
                r == Err::<u64, Error>(Error::TradingError(TradingError::Unauthorized))
            } else if !expired {
                r == Err::<u64, Error>(Error::FutureError(FutureError::FutureNotYetExpired))
            } else if f.status != FutureStatus::Active {
                r == Err::<u64, Error>(Error::FutureError(FutureError::FutureNotActive))
            } else {
                match tokens_if_any(settlement_amount, payout_oracle(in_sol, *sol_oracle, *usdc_oracle), payout_decimals(in_sol, sol, usdc)) {
                    None => r == Err::<u64, Error>(overflow()),
                    Some(t) => if t > (if in_sol { sol.token_owned } else { usdc.token_owned })
                        || f.locked_amount > backing(f.side, sol, usdc).token_locked {
                        r == Err::<u64, Error>(overflow())
                    } else {
                        &&& r == Ok::<u64, Error>(t)
                        &&& *final(sol_custody) == (Custody {
                            token_owned: (sol.token_owned - amount_if(in_sol, t)) as u64,
                            token_locked: (sol.token_locked - amount_if(long, f.locked_amount)) as u64,
                            ..sol
                        })
                        &&& *final(usdc_custody) == (Custody {
                            token_owned: (usdc.token_owned - amount_if(!in_sol, t)) as u64,
                            token_locked: (usdc.token_locked - amount_if(!long, f.locked_amount)) as u64,
                            ..usdc
                        })
                    },
                }
            }
        }),
        r is Err ==> {
            &&& *final(sol_custody) == *old(sol_custody)
            &&& *final(usdc_custody) == *old(usdc_custody)
        },
{
    if future.owner != params.owner {
        return Err(Error::TradingError(TradingError::Unauthorized));
    }
    if !expired {
        return Err(Error::FutureError(FutureError::FutureNotYetExpired));
    }
    if future.status != FutureStatus::Active {
        return Err(Error::FutureError(FutureError::FutureNotActive));
    }
    let in_sol = future.collateral_custody == sol_custody_key;
    let settlement_tokens = if settlement_amount > 0 {
        if in_sol {
            usd_to_tokens_at(settlement_amount, sol_oracle, sol_custody.decimals)?
        } else {
            usd_to_tokens_at(settlement_amount, usdc_oracle, usdc_custody.decimals)?
        }
    } else {
        0
    };
    let mut new_sol_owned = sol_custody.token_owned;
    let mut new_usdc_owned = usdc_custody.token_owned;
    if settlement_tokens > 0 {
        if in_sol {
            new_sol_owned = checked_sub(new_sol_owned, settlement_tokens)?;
        } else {
            new_usdc_owned = checked_sub(new_usdc_owned, settlement_tokens)?;
        }
    }
    let long = future.side == Side::Long;
    let new_sol_locked = if long {
        checked_sub(sol_custody.token_locked, future.locked_amount)?
    } else {
        sol_custody.token_locked
    };
    let new_usdc_locked = if long {
        usdc_custody.token_locked
    } else {
        checked_sub(usdc_custody.token_locked, future.locked_amount)?
    };
    sol_custody.token_owned = new_sol_owned;
    sol_custody.token_locked = new_sol_locked;
    usdc_custody.token_owned = new_usdc_owned;
    usdc_custody.token_locked = new_usdc_locked;
    Ok(settlement_tokens)
}

} // verus!
