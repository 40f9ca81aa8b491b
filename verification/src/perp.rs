//! Perpetual positions: opening, closing, liquidation, size and collateral changes,
//! limit orders and take-profit / stop-loss execution.
use crate::convert::{
    close_portion, portion, tokens_at_oracle, usd_to_tokens_at,
    FULL_PERCENTAGE,
};
use crate::errors::{overflow, Error, PerpetualError, TradingError};
use crate::math::{checked_add, checked_sub, trunc_div};
use crate::orders::{book_cleared_if, clear_book_if, holds_orders, spent_order, wrong_book};
use crate::state::{same_custody_setup, AccountKey, Custody, OraclePrice, OrderType, Pool, Position, Side, TpSlOrder, TpSlOrderbook};
use vstd::prelude::*;

verus! {

/// The part of a profit or loss that a close of `percentage` realizes: all of it for
/// a full close, otherwise its share rounded toward zero.
pub open spec fn pnl_portion(pnl: i64, percentage: u64) -> int {
    if percentage == FULL_PERCENTAGE {
        pnl as int
    } else if pnl >= 0 {
        (pnl as int) * (percentage as int) / (FULL_PERCENTAGE as int)
    } else {
        -(((-pnl) as int) * (percentage as int) / (FULL_PERCENTAGE as int))
    }
}

proof fn lemma_pnl_portion_bounds(pnl: i64, percentage: u64)
    requires
        percentage <= FULL_PERCENTAGE,
        pnl > i64::MIN,
    ensures
        pnl >= 0 ==> 0 <= pnl_portion(pnl, percentage) <= pnl,
        pnl < 0 ==> pnl <= pnl_portion(pnl, percentage) <= 0,
{
    if percentage != FULL_PERCENTAGE {
        if pnl >= 0 {
            assert(0 <= (pnl as int) * (percentage as int) / 100_000_000int <= pnl) by (nonlinear_arith)
                requires
                    pnl >= 0,
                    percentage <= 100_000_000,
            ;
        } else {
            let m = (-pnl) as int;
            assert(0 <= m * (percentage as int) / 100_000_000int <= m) by (nonlinear_arith)
                requires
                    m > 0,
                    percentage <= 100_000_000,
            ;
        }
    }
}

/// The part of a profit or loss that a close realizes.
pub fn realized_pnl(pnl: i64, percentage: u64) -> (r: i64)
    requires
        percentage <= FULL_PERCENTAGE,
        pnl > i64::MIN,
    ensures
        r as int == pnl_portion(pnl, percentage),
{
    proof {
        lemma_pnl_portion_bounds(pnl, percentage);
    }
    if percentage == FULL_PERCENTAGE {
        pnl
    } else if pnl >= 0 {
        let wide = (pnl as u128) * (percentage as u128);
        (wide / (FULL_PERCENTAGE as u128)) as i64
    } else {
        let magnitude: u64 = (-pnl) as u64;
        let wide = (magnitude as u128) * (percentage as u128);
        let part = (wide / (FULL_PERCENTAGE as u128)) as i64;
        -part
    }
}

/// Collateral plus realized profit, less interest and trade fees, in dollars: what a
/// close or a liquidation owes its owner before the floor at zero.
pub open spec fn net_settlement(
    collateral_usd: u64,
    pnl: int,
    interest: u64,
    trade_fees: u64,
) -> int {
    collateral_usd + pnl - interest - trade_fees
}

/// Whether the signed settlement arithmetic stays within `i64` at every step, the
/// dollar amounts being at most `i64::MAX` each.
pub open spec fn settlement_fits(collateral_usd: u64, pnl: int, interest: u64, trade_fees: u64) -> bool {
    &&& collateral_usd <= i64::MAX
    &&& interest <= i64::MAX
    &&& trade_fees <= i64::MAX
    &&& i64::MIN <= collateral_usd + pnl <= i64::MAX
    &&& i64::MIN <= collateral_usd + pnl - interest <= i64::MAX
    &&& i64::MIN <= collateral_usd + pnl - interest - trade_fees <= i64::MAX
}

/// The settlement in dollars: the net amount floored at zero.
pub open spec fn settlement_usd(collateral_usd: u64, pnl: int, interest: u64, trade_fees: u64) -> u64 {
    let net = net_settlement(collateral_usd, pnl, interest, trade_fees);
    if net < 0 {
        0
    } else {
        net as u64
    }
}

/// Computes the settlement in dollars.
fn compute_settlement_usd(collateral_usd: u64, pnl: i64, interest: u64, trade_fees: u64) -> (r: u64)
    requires
        settlement_fits(collateral_usd, pnl as int, interest, trade_fees),
    ensures
        r == settlement_usd(collateral_usd, pnl as int, interest, trade_fees),
{
    let mut net = collateral_usd as i64 + pnl - interest as i64 - trade_fees as i64;
    if net < 0 {
        net = 0;
    }
    net as u64
}

/// The custody that backs a side: SOL for longs, USDC for shorts.
pub open spec fn backing(side: Side, sol: Custody, usdc: Custody) -> Custody {
    match side {
        Side::Long => sol,
        Side::Short => usdc,
    }
}

/// The decimals of the token that a settlement is paid in.
pub open spec fn payout_decimals(in_sol: bool, sol: Custody, usdc: Custody) -> u8 {
    if in_sol {
        sol.decimals
    } else {
        usdc.decimals
    }
}

/// The oracle of the token that a settlement is paid in.
pub open spec fn payout_oracle(in_sol: bool, sol_price: OraclePrice, usdc_price: OraclePrice) -> OraclePrice {
    if in_sol {
        sol_price
    } else {
        usdc_price
    }
}

/// `amount` if `cond`, zero otherwise.
pub open spec fn amount_if(cond: bool, amount: u64) -> int {
    if cond {
        amount as int
    } else {
        0
    }
}

/// The amounts that a close of `percentage` of a perpetual position moves.
#[derive(Debug, Clone, Copy, PartialEq, Eq, Structural)]
pub struct CloseReport {
    pub is_full_close: bool,
    pub size_usd_closed: u64,
    pub collateral_amount_closed: u64,
    pub collateral_usd_closed: u64,
    pub locked_released: u64,
    pub realized_pnl: i64,
    pub interest_paid: u64,
    pub trade_fees_paid: u64,
    pub settlement_usd: u64,
    /// Tokens paid to the owner, in the asset they asked for.
    pub settlement_tokens: u64,
    /// The settlement expressed in the position's own asset (SOL for longs, USDC for shorts).
    pub native_exit_tokens: u64,
}

/// Parameters of a close of a perpetual position.
#[derive(Debug, Clone, Copy, PartialEq, Eq, Structural)]
pub struct ClosePerpPositionParams {
    pub position_index: u64,
    pub contract_type: u8,
    /// Share to close, with six decimals: `100_000_000` closes the whole position.
    pub close_percentage: u64,
    /// Pay the settlement in SOL (`true`) or USDC.
    pub receive_sol: bool,
}

/// The report of a close of `percentage` of `p`, given the position's profit or loss
/// and its borrow interest; none where a token conversion leaves its type.
pub open spec fn close_report(
    p: Position,
    percentage: u64,
    pnl: i64,
    interest: u64,
    receive_sol: bool,
    sol: Custody,
    usdc: Custody,
    sol_price: OraclePrice,
    usdc_price: OraclePrice,
) -> Option<CloseReport> {
    let collateral_usd_closed = portion(p.collateral_usd, percentage);
    let pnl_closed = pnl_portion(pnl, percentage);
    let interest_closed = portion(interest, percentage);
    let fees_closed = portion(p.trade_fees, percentage);
    let usd = settlement_usd(collateral_usd_closed, pnl_closed, interest_closed, fees_closed);
    let long = p.side == Side::Long;
    match (
        tokens_at_oracle(usd, payout_oracle(receive_sol, sol_price, usdc_price), payout_decimals(receive_sol, sol, usdc)),
        tokens_at_oracle(usd, payout_oracle(long, sol_price, usdc_price), payout_decimals(long, sol, usdc)),
    ) {
        (Some(settlement_tokens), Some(native_exit_tokens)) => Some(
            CloseReport {
                is_full_close: percentage == FULL_PERCENTAGE,
                size_usd_closed: portion(p.size_usd, percentage),
                collateral_amount_closed: portion(p.collateral_amount, percentage),
                collateral_usd_closed,
                locked_released: portion(p.locked_amount, percentage),
                realized_pnl: pnl_closed as i64,
                interest_paid: interest_closed,
                trade_fees_paid: fees_closed,
                settlement_usd: usd,
                settlement_tokens,
                native_exit_tokens,
            },
        ),
        _ => None,
    }
}

/// Whether the books can take a close that `rep` describes: the custodies hold the
/// released and returned amounts, and the pool the closed open interest.
pub open spec fn close_books_fit(
    p: Position,
    rep: CloseReport,
    collateral_in_sol: bool,
    pool: Pool,
    sol: Custody,
    usdc: Custody,
) -> bool {
    let long = p.side == Side::Long;
    &&& rep.locked_released <= backing(p.side, sol, usdc).token_locked
    &&& rep.collateral_amount_closed <= (if collateral_in_sol {
        sol.token_owned
    } else {
        usdc.token_owned
    })
    &&& rep.size_usd_closed <= (if long {
        pool.long_open_interest_usd
    } else {
        pool.short_open_interest_usd
    })
}

/// Whether the position's fee counters can take the interest that a close (or a
/// liquidation) pays: the paid counter stays within `u64` and the accrued counter
/// holds the interest.
pub open spec fn fee_counters_fit(p: Position, interest: u64) -> bool {
    &&& p.borrow_fees_paid + interest <= u64::MAX
    &&& interest <= p.accrued_borrow_fees
}

/// The position after a close that `rep` describes.
pub open spec fn position_after_close(p: Position, rep: CloseReport, now: i64) -> Position {
    Position {
        is_liquidated: p.is_liquidated || rep.is_full_close,
        size_usd: (p.size_usd - rep.size_usd_closed) as u64,
        collateral_amount: (p.collateral_amount - rep.collateral_amount_closed) as u64,
        collateral_usd: (p.collateral_usd - rep.collateral_usd_closed) as u64,
        locked_amount: (p.locked_amount - rep.locked_released) as u64,
        trade_fees: (p.trade_fees - rep.trade_fees_paid) as u64,
        borrow_fees_paid: (p.borrow_fees_paid + rep.interest_paid) as u64,
        accrued_borrow_fees: (p.accrued_borrow_fees - rep.interest_paid) as u64,
        update_time: now,
        ..p
    }
}

/// The error, if any, of the checks that open a close.
pub open spec fn close_check(p: Position, owner: AccountKey, percentage: u64) -> Option<Error> {
    if p.owner != owner {
        Some(Error::TradingError(TradingError::Unauthorized))
    } else if p.is_liquidated {
        Some(Error::PerpetualError(PerpetualError::PositionLiquidated))
    } else if p.order_type != OrderType::Market {
        Some(Error::PerpetualError(PerpetualError::InvalidOrderType))
    } else if !(0 < percentage <= FULL_PERCENTAGE) {
        Some(Error::TradingError(TradingError::InvalidAmount))
    } else {
        None
    }
}

/// Closes `close_percentage` of a market position at the current price.
///
/// `pnl` is the position's profit or loss at the current price and
/// `interest_payment` its borrow interest brought up to date; `sol_custody_key` is
/// the address of the SOL custody, against which the position's collateral custody
/// is compared. The owner receives `settlement_tokens` of the asset they chose; the
/// closed share of the locked liquidity is released, the closed collateral leaves
/// the custody that holds it, and the closed size leaves the pool's open interest.
/// A full close also empties the position's take-profit and stop-loss book, where
/// one is given (`orderbook` holds its contents where it is set up;
/// `book_key_matches` says whether a given book account has the position's book
/// address, and is `None` where none was given): a given account at another address
/// is refused. On an error nothing changes.
pub fn close_perp_position(
    position: &mut Position,
    pool: &mut Pool,
    sol_custody: &mut Custody,
    usdc_custody: &mut Custody,
    orderbook: &mut Option<TpSlOrderbook>,
    book_key_matches: Option<bool>,
    params: &ClosePerpPositionParams,
    owner: AccountKey,
    sol_custody_key: AccountKey,
    sol_price: &OraclePrice,
    usdc_price: &OraclePrice,
    pnl: i64,
    interest_payment: u64,
    current_time: i64,
) -> (r: Result<CloseReport, Error>)
    requires
        close_check(*old(position), owner, params.close_percentage) is None ==> pnl > i64::MIN,
        close_check(*old(position), owner, params.close_percentage) is None ==> settlement_fits(
            portion(old(position).collateral_usd, params.close_percentage),
            pnl_portion(pnl, params.close_percentage),
            portion(interest_payment, params.close_percentage),
            portion(old(position).trade_fees, params.close_percentage),
        ),
    ensures
        ({
            let p = *old(position);
            let collateral_in_sol = p.collateral_custody == sol_custody_key;
            match close_check(p, owner, params.close_percentage) {
                Some(e) => r == Err::<CloseReport, Error>(e),
                None => match close_report(
                    p,
                    params.close_percentage,
                    pnl,
                    interest_payment,
                    params.receive_sol,
                    *old(sol_custody),
                    *old(usdc_custody),
                    *sol_price,
                    *usdc_price,
                ) {
                    None => r == Err::<CloseReport, Error>(overflow()),
                    Some(rep) => if close_books_fit(
                        p,
                        rep,
                        collateral_in_sol,
                        *old(pool),
                        *old(sol_custody),
                        *old(usdc_custody),
                    ) {
                        if rep.is_full_close && wrong_book(book_key_matches) {
                            r == Err::<CloseReport, Error>(Error::TradingError(TradingError::Unauthorized))
                        } else if !fee_counters_fit(p, rep.interest_paid) {
                            r == Err::<CloseReport, Error>(overflow())
                        } else {
                        &&& r == Ok::<CloseReport, Error>(rep)
                        &&& book_cleared_if(*old(orderbook), *final(orderbook), rep.is_full_close)
                        &&& *final(position) == position_after_close(p, rep, current_time)
                        &&& final(sol_custody).token_locked == old(sol_custody).token_locked - amount_if(
                            p.side == Side::Long,
                            rep.locked_released,
                        )
                        &&& final(usdc_custody).token_locked == old(usdc_custody).token_locked
                            - amount_if(p.side == Side::Short, rep.locked_released)
                        &&& final(sol_custody).token_owned == old(sol_custody).token_owned - amount_if(
                            collateral_in_sol,
                            rep.collateral_amount_closed,
                        )
                        &&& final(usdc_custody).token_owned == old(usdc_custody).token_owned
                            - amount_if(!collateral_in_sol, rep.collateral_amount_closed)
                        &&& same_custody_setup(*final(sol_custody), *old(sol_custody))
                        &&& same_custody_setup(*final(usdc_custody), *old(usdc_custody))
                        &&& final(pool).long_open_interest_usd == old(pool).long_open_interest_usd
                            - amount_if(p.side == Side::Long, rep.size_usd_closed)
                        &&& final(pool).short_open_interest_usd == old(pool).short_open_interest_usd
                            - amount_if(p.side == Side::Short, rep.size_usd_closed)
                        &&& final(pool).cumulative_interest_rate_long == old(pool).cumulative_interest_rate_long
                        &&& final(pool).cumulative_interest_rate_short == old(pool).cumulative_interest_rate_short
                        &&& final(pool).bump == old(pool).bump
                        &&& final(pool).lp_token_bump == old(pool).lp_token_bump
                        }
                    } else {
                        r == Err::<CloseReport, Error>(overflow())
                    },
                },
            }
        }),
        r is Err ==> {
            &&& book_cleared_if(*old(orderbook), *final(orderbook), false)
            &&& *final(position) == *old(position)
            &&& *final(pool) == *old(pool)
            &&& *final(sol_custody) == *old(sol_custody)
            &&& *final(usdc_custody) == *old(usdc_custody)
        },
{
    if position.owner != owner {
        return Err(Error::TradingError(TradingError::Unauthorized));
    }
    if position.is_liquidated {
        return Err(Error::PerpetualError(PerpetualError::PositionLiquidated));
    }
    if position.order_type != OrderType::Market {
        return Err(Error::PerpetualError(PerpetualError::InvalidOrderType));
    }
    if !(params.close_percentage > 0 && params.close_percentage <= FULL_PERCENTAGE) {
        return Err(Error::TradingError(TradingError::InvalidAmount));
    }
    let pct = params.close_percentage;
    let is_full_close = pct == FULL_PERCENTAGE;
    let size_usd_to_close = close_portion(position.size_usd, pct);
    let collateral_amount_to_close = close_portion(position.collateral_amount, pct);
    let collateral_usd_to_close = close_portion(position.collateral_usd, pct);
    let pnl_for_closed_portion = realized_pnl(pnl, pct);
    let interest_for_closed_portion = close_portion(interest_payment, pct);
    let trade_fees_for_closed_portion = close_portion(position.trade_fees, pct);
    let settlement = compute_settlement_usd(
        collateral_usd_to_close,
        pnl_for_closed_portion,
        interest_for_closed_portion,
        trade_fees_for_closed_portion,
    );
    let settlement_tokens = if params.receive_sol {
        usd_to_tokens_at(settlement, sol_price, sol_custody.decimals)?
    } else {
        usd_to_tokens_at(settlement, usdc_price, usdc_custody.decimals)?
    };
    let native_exit_tokens = if position.side == Side::Long {
        usd_to_tokens_at(settlement, sol_price, sol_custody.decimals)?
    } else {
        usd_to_tokens_at(settlement, usdc_price, usdc_custody.decimals)?
    };
    let locked_amount_to_release = close_portion(position.locked_amount, pct);
    let long = position.side == Side::Long;
    let collateral_in_sol = position.collateral_custody == sol_custody_key;

    let new_sol_locked = if long {
        checked_sub(sol_custody.token_locked, locked_amount_to_release)?
    } else {
        sol_custody.token_locked
    };
    let new_usdc_locked = if long {
        usdc_custody.token_locked
    } else {
        checked_sub(usdc_custody.token_locked, locked_amount_to_release)?
    };
    let new_sol_owned = if collateral_in_sol {
        checked_sub(sol_custody.token_owned, collateral_amount_to_close)?
    } else {
        sol_custody.token_owned
    };
    let new_usdc_owned = if collateral_in_sol {
        usdc_custody.token_owned
    } else {
        checked_sub(usdc_custody.token_owned, collateral_amount_to_close)?
    };
    let new_long_oi = if long {
        checked_sub(pool.long_open_interest_usd, size_usd_to_close as u128)?
    } else {
        pool.long_open_interest_usd
    };
    let new_short_oi = if long {
        pool.short_open_interest_usd
    } else {
        checked_sub(pool.short_open_interest_usd, size_usd_to_close as u128)?
    };
    if is_full_close {
        if let Some(false) = book_key_matches {
            return Err(Error::TradingError(TradingError::Unauthorized));
        }
    }
    let new_fees_paid = checked_add(position.borrow_fees_paid, interest_for_closed_portion)?;
    let new_accrued = checked_sub(position.accrued_borrow_fees, interest_for_closed_portion)?;
    clear_book_if(orderbook, is_full_close);

    sol_custody.token_locked = new_sol_locked;
    sol_custody.token_owned = new_sol_owned;
    usdc_custody.token_locked = new_usdc_locked;
    usdc_custody.token_owned = new_usdc_owned;
    pool.long_open_interest_usd = new_long_oi;
    pool.short_open_interest_usd = new_short_oi;

    if is_full_close {
        position.is_liquidated = true;
    }
    position.size_usd = position.size_usd - size_usd_to_close;
    position.collateral_amount = position.collateral_amount - collateral_amount_to_close;
    position.collateral_usd = position.collateral_usd - collateral_usd_to_close;
    position.locked_amount = position.locked_amount - locked_amount_to_release;
    position.trade_fees = position.trade_fees - trade_fees_for_closed_portion;
    position.borrow_fees_paid = new_fees_paid;
    position.accrued_borrow_fees = new_accrued;
    position.update_time = current_time;

    Ok(
        CloseReport {
            is_full_close,
            size_usd_closed: size_usd_to_close,
            collateral_amount_closed: collateral_amount_to_close,
            collateral_usd_closed: collateral_usd_to_close,
            locked_released: locked_amount_to_release,
            realized_pnl: pnl_for_closed_portion,
            interest_paid: interest_for_closed_portion,
            trade_fees_paid: trade_fees_for_closed_portion,
            settlement_usd: settlement,
            settlement_tokens,
            native_exit_tokens,
        },
    )
}

/// The amounts that a liquidation moves.
#[derive(Debug, Clone, Copy, PartialEq, Eq, Structural)]
pub struct LiquidationReport {
    /// Dollars owed to the owner: collateral plus profit less interest and trade fees,
    /// floored at zero. The keeper turns it into tokens at the collateral's price.
    pub settlement_usd: u64,
    /// The liquidator's reward in dollars; the contract pays none.
    pub liquidator_reward_usd: u64,
    pub size_usd_closed: u64,
    pub collateral_amount_released: u64,
    pub locked_released: u64,
    pub interest_paid: u64,
    pub trade_fees_paid: u64,
}

/// The error, if any, of the checks that open a liquidation.
pub open spec fn liquidation_check(
    p: Position,
    price_liquidatable: bool,
    margin_liquidatable: bool,
) -> Option<Error> {
    if p.is_liquidated {
        Some(Error::PerpetualError(PerpetualError::PositionLiquidated))
    } else if p.order_type != OrderType::Market {
        Some(Error::PerpetualError(PerpetualError::InvalidOrderType))
    } else if !(price_liquidatable || margin_liquidatable) {
        Some(Error::PerpetualError(PerpetualError::PositionNotLiquidatable))
    } else {
        None
    }
}

/// The report of a liquidation of `p`.
pub open spec fn liquidation_report(p: Position, pnl: i64, interest: u64) -> LiquidationReport {
    LiquidationReport {
        settlement_usd: settlement_usd(p.collateral_usd, pnl as int, interest, p.trade_fees),
        liquidator_reward_usd: 0,
        size_usd_closed: p.size_usd,
        collateral_amount_released: p.collateral_amount,
        locked_released: p.locked_amount,
        interest_paid: interest,
        trade_fees_paid: p.trade_fees,
    }
}

/// The position after its liquidation: marked liquidated, its amounts emptied, the
/// interest moved from accrued to paid.
pub open spec fn position_after_liquidation(p: Position, interest: u64, now: i64) -> Position {
    Position {
        is_liquidated: true,
        size_usd: 0,
        collateral_amount: 0,
        collateral_usd: 0,
        locked_amount: 0,
        update_time: now,
        borrow_fees_paid: (p.borrow_fees_paid + interest) as u64,
        accrued_borrow_fees: (p.accrued_borrow_fees - interest) as u64,
        ..p
    }
}

/// Liquidates a market position whose price or margin has crossed its limit.
///
/// `price_liquidatable` and `margin_liquidatable` are the position's two
/// liquidation tests at the current price, `pnl` its profit or loss there and
/// `interest_payment` its borrow interest brought up to date. The whole locked
/// liquidity is released, the whole collateral leaves its custody and the whole size
/// leaves the pool's open interest. The position's take-profit and stop-loss book,
/// where one is given, is emptied; a given book account at another address than the
/// position's book (`book_key_matches` is `Some(false)`) is refused. On an error
/// nothing changes.
pub fn liquidate(
    position: &mut Position,
    pool: &mut Pool,
    sol_custody: &mut Custody,
    usdc_custody: &mut Custody,
    orderbook: &mut Option<TpSlOrderbook>,
    book_key_matches: Option<bool>,
    sol_custody_key: AccountKey,
    price_liquidatable: bool,
    margin_liquidatable: bool,
    pnl: i64,
    interest_payment: u64,
    current_time: i64,
) -> (r: Result<LiquidationReport, Error>)
    requires
        liquidation_check(*old(position), price_liquidatable, margin_liquidatable) is None
            ==> settlement_fits(
            old(position).collateral_usd,
            pnl as int,
            interest_payment,
            old(position).trade_fees,
        ),
    ensures
        ({
            let p = *old(position);
            let collateral_in_sol = p.collateral_custody == sol_custody_key;
            let long = p.side == Side::Long;
            let rep = liquidation_report(p, pnl, interest_payment);
            match liquidation_check(p, price_liquidatable, margin_liquidatable) {
                Some(e) => r == Err::<LiquidationReport, Error>(e),
                None => if {
                    &&& p.locked_amount <= backing(p.side, *old(sol_custody), *old(usdc_custody)).token_locked
                    &&& p.collateral_amount <= (if collateral_in_sol {
                        old(sol_custody).token_owned
                    } else {
                        old(usdc_custody).token_owned
                    })
                    &&& p.size_usd <= (if long {
                        old(pool).long_open_interest_usd
                    } else {
                        old(pool).short_open_interest_usd
                    })
                } {
                    if wrong_book(book_key_matches) {
                        r == Err::<LiquidationReport, Error>(Error::TradingError(TradingError::Unauthorized))
                    } else if !fee_counters_fit(p, interest_payment) {
                        r == Err::<LiquidationReport, Error>(overflow())
                    } else {
                    &&& r == Ok::<LiquidationReport, Error>(rep)
                    &&& book_cleared_if(*old(orderbook), *final(orderbook), true)
                    &&& *final(position) == position_after_liquidation(p, interest_payment, current_time)
                    &&& final(sol_custody).token_locked == old(sol_custody).token_locked - amount_if(long, p.locked_amount)
                    &&& final(usdc_custody).token_locked == old(usdc_custody).token_locked - amount_if(!long, p.locked_amount)
                    &&& final(sol_custody).token_owned == old(sol_custody).token_owned - amount_if(
                        collateral_in_sol,
                        p.collateral_amount,
                    )
                    &&& final(usdc_custody).token_owned == old(usdc_custody).token_owned - amount_if(
                        !collateral_in_sol,
                        p.collateral_amount,
                    )
                    &&& same_custody_setup(*final(sol_custody), *old(sol_custody))
                    &&& same_custody_setup(*final(usdc_custody), *old(usdc_custody))
                    &&& final(pool).long_open_interest_usd == old(pool).long_open_interest_usd - amount_if(long, p.size_usd)
                    &&& final(pool).short_open_interest_usd == old(pool).short_open_interest_usd - amount_if(!long, p.size_usd)
                    &&& final(pool).cumulative_interest_rate_long == old(pool).cumulative_interest_rate_long
                    &&& final(pool).cumulative_interest_rate_short == old(pool).cumulative_interest_rate_short
                    &&& final(pool).bump == old(pool).bump
                    &&& final(pool).lp_token_bump == old(pool).lp_token_bump
                    }
                } else {
                    r == Err::<LiquidationReport, Error>(overflow())
                },
            }
        }),
        r is Err ==> {
            &&& book_cleared_if(*old(orderbook), *final(orderbook), false)
            &&& *final(position) == *old(position)
            &&& *final(pool) == *old(pool)
            &&& *final(sol_custody) == *old(sol_custody)
            &&& *final(usdc_custody) == *old(usdc_custody)
        },
{
    if position.is_liquidated {
        return Err(Error::PerpetualError(PerpetualError::PositionLiquidated));
    }
    if position.order_type != OrderType::Market {
        return Err(Error::PerpetualError(PerpetualError::InvalidOrderType));
    }
    if !(price_liquidatable || margin_liquidatable) {
        return Err(Error::PerpetualError(PerpetualError::PositionNotLiquidatable));
    }
    let liquidator_reward_usd: u64 = 0;
    let settlement = compute_settlement_usd(
        position.collateral_usd,
        pnl,
        interest_payment,
        position.trade_fees,
    );
    let long = position.side == Side::Long;
    let collateral_in_sol = position.collateral_custody == sol_custody_key;
    let new_sol_locked = if long {
        checked_sub(sol_custody.token_locked, position.locked_amount)?
    } else {
        sol_custody.token_locked
    };
    let new_usdc_locked = if long {
        usdc_custody.token_locked
    } else {
        checked_sub(usdc_custody.token_locked, position.locked_amount)?
    };
    let new_sol_owned = if collateral_in_sol {
        checked_sub(sol_custody.token_owned, position.collateral_amount)?
    } else {
        sol_custody.token_owned
    };
    let new_usdc_owned = if collateral_in_sol {
        usdc_custody.token_owned
    } else {
        checked_sub(usdc_custody.token_owned, position.collateral_amount)?
    };
    let new_long_oi = if long {
        checked_sub(pool.long_open_interest_usd, position.size_usd as u128)?
    } else {
        pool.long_open_interest_usd
    };
    let new_short_oi = if long {
        pool.short_open_interest_usd
    } else {
        checked_sub(pool.short_open_interest_usd, position.size_usd as u128)?
    };
    if let Some(false) = book_key_matches {
        return Err(Error::TradingError(TradingError::Unauthorized));
    }
    let new_fees_paid = checked_add(position.borrow_fees_paid, interest_payment)?;
    let new_accrued = checked_sub(position.accrued_borrow_fees, interest_payment)?;
    clear_book_if(orderbook, true);
    let report = LiquidationReport {
        settlement_usd: settlement,
        liquidator_reward_usd,
        size_usd_closed: position.size_usd,
        collateral_amount_released: position.collateral_amount,
        locked_released: position.locked_amount,
        interest_paid: interest_payment,
        trade_fees_paid: position.trade_fees,
    };

    sol_custody.token_locked = new_sol_locked;
    sol_custody.token_owned = new_sol_owned;
    usdc_custody.token_locked = new_usdc_locked;
    usdc_custody.token_owned = new_usdc_owned;
    pool.long_open_interest_usd = new_long_oi;
    pool.short_open_interest_usd = new_short_oi;

    position.is_liquidated = true;
    position.size_usd = 0;
    position.collateral_amount = 0;
    position.collateral_usd = 0;
    position.locked_amount = 0;
    position.update_time = current_time;
    position.borrow_fees_paid = new_fees_paid;
    position.accrued_borrow_fees = new_accrued;
    Ok(report)
}

/// Parameters of [`cancel_limit_order`]: `close_percentage` runs from 1 to 100.
#[derive(Debug, Clone)]
pub struct CancelLimitOrderParams {
    pub position_index: u64,
    pub pool_name: String,
    pub close_percentage: u8,
    pub receive_sol: bool,
}

/// Parameters of [`remove_collateral`].
#[derive(Debug, Clone)]
pub struct RemoveCollateralParams {
    pub position_index: u64,
    pub pool_name: String,
    pub collateral_amount: u64,
    pub receive_sol: bool,
}

/// Parameters of a new perpetual position.
#[derive(Debug, Clone)]
pub struct OpenPerpPositionParams {
    /// Position amount in tokens of the collateral asset.
    pub size_amount: u64,
    /// Collateral in tokens.
    pub collateral_amount: u64,
    pub side: Side,
    pub order_type: OrderType,
    /// Entry price of a limit order.
    pub trigger_price: Option<u64>,
    pub trigger_above_threshold: bool,
    /// Largest acceptable slippage, in basis points.
    pub max_slippage: u64,
    pub pool_name: String,
    /// Pay the collateral in SOL (`true`) or USDC.
    pub pay_sol: bool,
}

/// What the opening of a position takes from the market and from its float pricing.
#[derive(Debug, Clone, Copy, PartialEq, Eq, Structural)]
pub struct OpenPerpQuote {
    /// The collateral's value in dollars (six decimals).
    pub collateral_usd: u64,
    /// The position's size in dollars (six decimals).
    pub size_usd: u64,
    /// The current SOL price with six decimals.
    pub current_price: u64,
    /// The liquidation price at the entry price and leverage.
    pub liquidation_price: u64,
    /// Whether the leverage lies between one and the maximum.
    pub leverage_ok: bool,
    /// Whether the initial margin meets the minimum.
    pub margin_ok: bool,
}

/// The addresses that a new position records, and the bump of its own address.
#[derive(Debug, Clone, Copy, PartialEq, Eq, Structural)]
pub struct PositionKeys {
    pub owner: AccountKey,
    pub pool: AccountKey,
    pub sol_custody: AccountKey,
    pub usdc_custody: AccountKey,
    pub bump: u8,
}

/// The error, if any, of the checks on the parameters of a new position, on the
/// leverage and margin, and on the trader's balance, in the order the contract
/// makes them.
pub open spec fn open_perp_check(
    params: OpenPerpPositionParams,
    quote: OpenPerpQuote,
    funding_balance: u64,
) -> Option<Error> {
    if params.size_amount == 0 {
        Some(Error::TradingError(TradingError::InvalidAmount))
    } else if params.collateral_amount == 0 {
        Some(Error::TradingError(TradingError::InvalidAmount))
    } else if params.max_slippage > 1000 {
        Some(Error::TradingError(TradingError::InvalidSlippage))
    } else if params.pool_name@.len() == 0 {
        Some(Error::PoolError(crate::errors::PoolError::InvalidPoolName))
    } else if !quote.leverage_ok {
        Some(Error::PerpetualError(PerpetualError::InvalidLeverage))
    } else if funding_balance < params.collateral_amount {
        Some(Error::TradingError(TradingError::InsufficientBalance))
    } else if !quote.margin_ok {
        Some(Error::PerpetualError(PerpetualError::InvalidLeverage))
    } else {
        None
    }
}

/// The entry price: a limit order's trigger price where it has one, the current
/// price otherwise.
pub open spec fn entry_price(params: OpenPerpPositionParams, current_price: u64) -> u64 {
    if params.order_type == OrderType::Limit {
        match params.trigger_price {
            Some(p) => p,
            None => current_price,
        }
    } else {
        current_price
    }
}

/// The collateral counted in units of the side's own asset: as paid where the
/// trader paid in that asset, converted at the oracle price otherwise.
pub open spec fn normalized_collateral(
    params: OpenPerpPositionParams,
    collateral_usd: u64,
    sol: Custody,
    usdc: Custody,
    sol_price: OraclePrice,
    usdc_price: OraclePrice,
) -> Option<u64> {
    let long = params.side == Side::Long;
    if long == params.pay_sol {
        Some(params.collateral_amount)
    } else {
        tokens_at_oracle(collateral_usd, payout_oracle(long, sol_price, usdc_price), payout_decimals(long, sol, usdc))
    }
}

/// The new position.
pub open spec fn opened_position(
    params: OpenPerpPositionParams,
    quote: OpenPerpQuote,
    keys: PositionKeys,
    index: u64,
    pool: Pool,
    required_liquidity: u64,
    normalized: u64,
    trade_fees: u64,
    now: i64,
) -> Position {
    Position {
        index,
        owner: keys.owner,
        pool: keys.pool,
        custody: keys.sol_custody,
        collateral_custody: if params.pay_sol {
            keys.sol_custody
        } else {
            keys.usdc_custody
        },
        order_type: params.order_type,
        side: params.side,
        is_liquidated: false,
        price: entry_price(params, quote.current_price),
        size_usd: quote.size_usd,
        borrow_size_usd: 0,
        collateral_usd: quote.collateral_usd,
        open_time: now,
        update_time: now,
        execution_time: if params.order_type == OrderType::Market {
            Some(now)
        } else {
            None
        },
        last_borrow_fees_update_time: now,
        liquidation_price: quote.liquidation_price,
        cumulative_interest_snapshot: match params.side {
            Side::Long => pool.cumulative_interest_rate_long,
            Side::Short => pool.cumulative_interest_rate_short,
        },
        trade_fees,
        borrow_fees_paid: 0,
        accrued_borrow_fees: 0,
        locked_amount: required_liquidity,
        collateral_amount: normalized,
        initial_margin_bps: 0,
        maintenance_margin_bps: 0,
        trigger_price: params.trigger_price,
        trigger_above_threshold: params.trigger_above_threshold,
        take_profit_price: None,
        stop_loss_price: None,
        tp_sl_orderbook: None,
        bump: keys.bump,
    }
}

/// `count + 1`, or `1` where that overflows.
pub open spec fn next_count(count: u64) -> u64 {
    if count < u64::MAX {
        (count + 1) as u64
    } else {
        1
    }
}

/// Opens a perpetual position.
///
/// `quote` holds what the market and the float pricing give: the collateral's and
/// the position's dollar values, the current price, the liquidation price and the
/// leverage and margin tests. `exiting_fee_bps` is the exit fee charged up front.
/// The pool must own enough of the side's asset for the position's size. A market
/// order locks that liquidity at once (a limit order when it executes); the
/// collateral joins the custody it was paid in, the size joins the side's open
/// interest and the trader's position count grows by one. On an error nothing
/// changes.
pub fn open_perp_position(
    pool: &mut Pool,
    sol_custody: &mut Custody,
    usdc_custody: &mut Custody,
    user_position_count: &mut u64,
    params: &OpenPerpPositionParams,
    quote: &OpenPerpQuote,
    keys: &PositionKeys,
    sol_price: &OraclePrice,
    usdc_price: &OraclePrice,
    funding_balance: u64,
    exiting_fee_bps: u64,
    current_time: i64,
) -> (r: Result<Position, Error>)
    ensures
        ({
            let long = params.side == Side::Long;
            let market = params.order_type == OrderType::Market;
            let sol = *old(sol_custody);
            let usdc = *old(usdc_custody);
            match open_perp_check(*params, *quote, funding_balance) {
                Some(e) => r == Err::<Position, Error>(e),
                None => match (
                    tokens_at_oracle(quote.size_usd, payout_oracle(long, *sol_price, *usdc_price), payout_decimals(long, sol, usdc)),
                    normalized_collateral(*params, quote.collateral_usd, sol, usdc, *sol_price, *usdc_price),
                ) {
                    (Some(required), Some(normalized)) => if backing(params.side, sol, usdc).token_owned < required {
                        r == Err::<Position, Error>(Error::TradingError(TradingError::InsufficientPoolLiquidity))
                    } else if {
                        &&& market ==> backing(params.side, sol, usdc).token_locked + required <= u64::MAX
                        &&& (if params.pay_sol { sol.token_owned } else { usdc.token_owned }) + params.collateral_amount <= u64::MAX
                        &&& quote.size_usd * exiting_fee_bps <= u64::MAX
                        &&& (if long { old(pool).long_open_interest_usd } else { old(pool).short_open_interest_usd }) + quote.size_usd <= u128::MAX
                    } {
                        let fees = (quote.size_usd * exiting_fee_bps / 10000) as u64;
                        &&& r == Ok::<Position, Error>(opened_position(*params, *quote, *keys, next_count(*old(user_position_count)), *old(pool), required, normalized, fees, current_time))
                        &&& *final(user_position_count) == next_count(*old(user_position_count))
                        &&& final(sol_custody).token_locked == sol.token_locked + amount_if(market && long, required)
                        &&& final(usdc_custody).token_locked == usdc.token_locked + amount_if(market && !long, required)
                        &&& final(sol_custody).token_owned == sol.token_owned + amount_if(params.pay_sol, params.collateral_amount)
                        &&& final(usdc_custody).token_owned == usdc.token_owned + amount_if(!params.pay_sol, params.collateral_amount)
                        &&& same_custody_setup(*final(sol_custody), sol)
                        &&& same_custody_setup(*final(usdc_custody), usdc)
                        &&& final(pool).long_open_interest_usd == old(pool).long_open_interest_usd + amount_if(long, quote.size_usd)
                        &&& final(pool).short_open_interest_usd == old(pool).short_open_interest_usd + amount_if(!long, quote.size_usd)
                        &&& final(pool).cumulative_interest_rate_long == old(pool).cumulative_interest_rate_long
                        &&& final(pool).cumulative_interest_rate_short == old(pool).cumulative_interest_rate_short
                        &&& final(pool).bump == old(pool).bump
                        &&& final(pool).lp_token_bump == old(pool).lp_token_bump
                    } else {
                        r == Err::<Position, Error>(overflow())
                    },
                    _ => r == Err::<Position, Error>(overflow()),
                },
            }
        }),
        r is Err ==> {
            &&& *final(pool) == *old(pool)
            &&& *final(sol_custody) == *old(sol_custody)
            &&& *final(usdc_custody) == *old(usdc_custody)
            &&& *final(user_position_count) == *old(user_position_count)
        },
{
    if params.size_amount == 0 {
        return Err(Error::TradingError(TradingError::InvalidAmount));
    }
    if params.collateral_amount == 0 {
        return Err(Error::TradingError(TradingError::InvalidAmount));
    }
    if params.max_slippage > 1000 {
        return Err(Error::TradingError(TradingError::InvalidSlippage));
    }
    if params.pool_name.as_str().is_empty() {
        return Err(Error::PoolError(crate::errors::PoolError::InvalidPoolName));
    }
    if !quote.leverage_ok {
        return Err(Error::PerpetualError(PerpetualError::InvalidLeverage));
    }
    if funding_balance < params.collateral_amount {
        return Err(Error::TradingError(TradingError::InsufficientBalance));
    }
    if !quote.margin_ok {
        return Err(Error::PerpetualError(PerpetualError::InvalidLeverage));
    }
    let long = params.side == Side::Long;
    let market = params.order_type == OrderType::Market;
    let entry = if params.order_type == OrderType::Limit {
        match params.trigger_price {
            Some(p) => p,
            None => quote.current_price,
        }
    } else {
        quote.current_price
    };
    let required_liquidity = if long {
        usd_to_tokens_at(quote.size_usd, sol_price, sol_custody.decimals)?
    } else {
        usd_to_tokens_at(quote.size_usd, usdc_price, usdc_custody.decimals)?
    };
    let normalized_collateral_amount = if long {
        if params.pay_sol {
            params.collateral_amount
        } else {
            usd_to_tokens_at(quote.collateral_usd, sol_price, sol_custody.decimals)?
        }
    } else {
        if params.pay_sol {
            usd_to_tokens_at(quote.collateral_usd, usdc_price, usdc_custody.decimals)?
        } else {
            params.collateral_amount
        }
    };
    if long {
        if sol_custody.token_owned < required_liquidity {
            return Err(Error::TradingError(TradingError::InsufficientPoolLiquidity));
        }
    } else {
        if usdc_custody.token_owned < required_liquidity {
            return Err(Error::TradingError(TradingError::InsufficientPoolLiquidity));
        }
    }
    let new_sol_locked = if market && long {
        checked_add(sol_custody.token_locked, required_liquidity)?
    } else {
        sol_custody.token_locked
    };
    let new_usdc_locked = if market && !long {
        checked_add(usdc_custody.token_locked, required_liquidity)?
    } else {
        usdc_custody.token_locked
    };
    let new_sol_owned = if params.pay_sol {
        checked_add(sol_custody.token_owned, params.collateral_amount)?
    } else {
        sol_custody.token_owned
    };
    let new_usdc_owned = if params.pay_sol {
        usdc_custody.token_owned
    } else {
        checked_add(usdc_custody.token_owned, params.collateral_amount)?
    };
    let trade_fees = crate::math::checked_div(crate::math::checked_mul(quote.size_usd, exiting_fee_bps)?, 10000u64)?;
    let new_long_oi = if long {
        checked_add(pool.long_open_interest_usd, quote.size_usd as u128)?
    } else {
        pool.long_open_interest_usd
    };
    let new_short_oi = if long {
        pool.short_open_interest_usd
    } else {
        checked_add(pool.short_open_interest_usd, quote.size_usd as u128)?
    };
    let index = match user_position_count.checked_add(1) {
        Some(v) => v,
        None => 1,
    };
    let position = Position {
        index,
        owner: keys.owner,
        pool: keys.pool,
        custody: keys.sol_custody,
        collateral_custody: if params.pay_sol {
            keys.sol_custody
        } else {
            keys.usdc_custody
        },
        order_type: params.order_type,
        side: params.side,
        is_liquidated: false,
        price: entry,
        size_usd: quote.size_usd,
        borrow_size_usd: 0,
        collateral_usd: quote.collateral_usd,
        open_time: current_time,
        update_time: current_time,
        execution_time: if market {
            Some(current_time)
        } else {
            None
        },
        last_borrow_fees_update_time: current_time,
        liquidation_price: quote.liquidation_price,
        cumulative_interest_snapshot: match params.side {
            Side::Long => pool.cumulative_interest_rate_long,
            Side::Short => pool.cumulative_interest_rate_short,
        },
        trade_fees,
        borrow_fees_paid: 0,
        accrued_borrow_fees: 0,
        locked_amount: required_liquidity,
        collateral_amount: normalized_collateral_amount,
        initial_margin_bps: 0,
        maintenance_margin_bps: 0,
        trigger_price: params.trigger_price,
        trigger_above_threshold: params.trigger_above_threshold,
        take_profit_price: None,
        stop_loss_price: None,
        tp_sl_orderbook: None,
        bump: keys.bump,
    };
    sol_custody.token_locked = new_sol_locked;
    sol_custody.token_owned = new_sol_owned;
    usdc_custody.token_locked = new_usdc_locked;
    usdc_custody.token_owned = new_usdc_owned;
    pool.long_open_interest_usd = new_long_oi;
    pool.short_open_interest_usd = new_short_oi;
    *user_position_count = index;
    Ok(position)
}

/// Parameters of a change of a position's size.
#[derive(Debug, Clone, Copy, PartialEq, Eq, Structural)]
pub struct UpdatePositionSizeParams {
    pub position_index: u64,
    /// Grow (`true`) or shrink the position.
    pub is_increase: bool,
    /// The change of size in dollars (six decimals).
    pub size_delta_usd: u64,
    /// Collateral added with a growth, in tokens.
    pub collateral_delta: u64,
    /// Pay added collateral in SOL (`true`) or USDC.
    pub pay_sol: bool,
    /// Receive a shrink's settlement in SOL (`true`) or USDC.
    pub receive_sol: bool,
}

/// What the float pricing gives for a growth of a position.
#[derive(Debug, Clone, Copy, PartialEq, Eq, Structural)]
pub struct SizeIncreaseQuote {
    /// The added collateral's value in dollars.
    pub collateral_usd_delta: u64,
    /// The liquidity, in units of the side's asset, that the added size needs.
    pub required_liquidity_delta: u64,
}

/// What a change of size moved.
#[derive(Debug, Clone, Copy, PartialEq, Eq, Structural)]
pub struct SizeChangeReport {
    /// Collateral returned by a shrink, in tokens.
    pub collateral_amount_returned: u64,
    /// Liquidity locked by a growth or released by a shrink.
    pub locked_delta: u64,
    /// Dollars owed to the owner by a shrink.
    pub settlement_usd: u64,
}

/// The error, if any, of the checks common to both directions.
pub open spec fn size_change_check(p: Position, owner: AccountKey, params: UpdatePositionSizeParams) -> Option<Error> {
    if p.owner != owner {
        Some(Error::TradingError(TradingError::Unauthorized))
    } else if p.is_liquidated {
        Some(Error::PerpetualError(PerpetualError::PositionLiquidated))
    } else if p.order_type != OrderType::Market {
        Some(Error::PerpetualError(PerpetualError::InvalidOrderType))
    } else if params.size_delta_usd == 0 {
        Some(Error::TradingError(TradingError::InvalidAmount))
    } else {
        None
    }
}

/// The share of a position that a shrink by `delta` removes, as the contract
/// computes it: the integer quotient `delta / size`.
pub open spec fn reduction_ratio(delta: u64, size: u64) -> int {
    (delta as int) / (size as int)
}

/// Changes the size of a market position.
///
/// A growth adds `size_delta_usd` to the size and `collateral_delta` tokens of
/// collateral (worth `quote.collateral_usd_delta`), and locks
/// `quote.required_liquidity_delta` of the side's asset, which the pool must have
/// free. A shrink removes `size_delta_usd` from the size, which must stay at least
/// one dollar, and returns the share `size_delta_usd / size_usd` (an integer
/// quotient) of the collateral, of the locked liquidity and of the profit or loss.
/// The caller sets the new liquidation price. On an error nothing changes.
pub fn update_position_size(
    position: &mut Position,
    pool: &mut Pool,
    sol_custody: &mut Custody,
    usdc_custody: &mut Custody,
    params: &UpdatePositionSizeParams,
    owner: AccountKey,
    sol_custody_key: AccountKey,
    usdc_custody_key: AccountKey,
    funding_balance: u64,
    quote: &SizeIncreaseQuote,
    pnl: i64,
    current_time: i64,
) -> (r: Result<SizeChangeReport, Error>)
    ensures
        ({
            let p = *old(position);
            let sol = *old(sol_custody);
            let usdc = *old(usdc_custody);
            let long = p.side == Side::Long;
            let collateral_in_sol = p.collateral_custody == sol_custody_key;
            let delta = params.size_delta_usd;
            match size_change_check(p, owner, *params) {
                Some(e) => r == Err::<SizeChangeReport, Error>(e),
                None => if params.is_increase {
                    let req = quote.required_liquidity_delta;
                    let b = backing(p.side, sol, usdc);
                    if params.collateral_delta == 0 {
                        r == Err::<SizeChangeReport, Error>(Error::TradingError(TradingError::InvalidAmount))
                    } else if funding_balance < params.collateral_delta {
                        r == Err::<SizeChangeReport, Error>(Error::TradingError(TradingError::InsufficientBalance))
                    } else if p.collateral_custody != (if params.pay_sol { sol_custody_key } else { usdc_custody_key }) {
                        r == Err::<SizeChangeReport, Error>(Error::PerpetualError(PerpetualError::InvalidCollateralAsset))
                    } else if p.size_usd + delta > u64::MAX || p.collateral_usd + quote.collateral_usd_delta > u64::MAX {
                        r == Err::<SizeChangeReport, Error>(overflow())
                    } else if (if b.token_owned >= b.token_locked { b.token_owned - b.token_locked } else { 0 }) < req {
                        r == Err::<SizeChangeReport, Error>(Error::TradingError(TradingError::InsufficientPoolLiquidity))
                    } else if {
                        &&& b.token_locked + req <= u64::MAX
                        &&& (if params.pay_sol { sol.token_owned } else { usdc.token_owned }) + params.collateral_delta <= u64::MAX
                        &&& p.collateral_amount + params.collateral_delta <= u64::MAX
                        &&& p.locked_amount + req <= u64::MAX
                        &&& (if long { old(pool).long_open_interest_usd } else { old(pool).short_open_interest_usd }) + delta <= u128::MAX
                    } {
                        &&& r == Ok::<SizeChangeReport, Error>(SizeChangeReport { collateral_amount_returned: 0, locked_delta: req, settlement_usd: 0 })
                        &&& *final(position) == (Position {
                            size_usd: (p.size_usd + delta) as u64,
                            collateral_usd: (p.collateral_usd + quote.collateral_usd_delta) as u64,
                            collateral_amount: (p.collateral_amount + params.collateral_delta) as u64,
                            locked_amount: (p.locked_amount + req) as u64,
                            update_time: current_time,
                            ..p
                        })
                        &&& final(sol_custody).token_locked == sol.token_locked + amount_if(long, req)
                        &&& final(usdc_custody).token_locked == usdc.token_locked + amount_if(!long, req)
                        &&& final(sol_custody).token_owned == sol.token_owned + amount_if(params.pay_sol, params.collateral_delta)
                        &&& final(usdc_custody).token_owned == usdc.token_owned + amount_if(!params.pay_sol, params.collateral_delta)
                        &&& same_custody_setup(*final(sol_custody), sol)
                        &&& same_custody_setup(*final(usdc_custody), usdc)
                        &&& final(pool).long_open_interest_usd == old(pool).long_open_interest_usd + amount_if(long, delta)
                        &&& final(pool).short_open_interest_usd == old(pool).short_open_interest_usd + amount_if(!long, delta)
                        &&& final(pool).cumulative_interest_rate_long == old(pool).cumulative_interest_rate_long
                        &&& final(pool).cumulative_interest_rate_short == old(pool).cumulative_interest_rate_short
                        &&& final(pool).bump == old(pool).bump
                        &&& final(pool).lp_token_bump == old(pool).lp_token_bump
                    } else {
                        r == Err::<SizeChangeReport, Error>(overflow())
                    }
                } else {
                    let ratio = reduction_ratio(delta, p.size_usd);
                    let usd_back = p.collateral_usd * ratio;
                    let amount_back = p.collateral_amount * ratio;
                    let release = p.locked_amount * ratio;
                    let pnl_part = trunc_div((pnl as int) * ratio, 10_000);
                    if delta >= p.size_usd {
                        r == Err::<SizeChangeReport, Error>(Error::TradingError(TradingError::InvalidAmount))
                    } else if usd_back > u64::MAX || amount_back > u64::MAX || release > u64::MAX || usd_back > p.collateral_usd {
                        r == Err::<SizeChangeReport, Error>(overflow())
                    } else if p.size_usd - delta < 1_000_000 {
                        r == Err::<SizeChangeReport, Error>(Error::TradingError(TradingError::PositionTooSmall))
                    } else if {
                        &&& i64::MIN <= pnl_part <= i64::MAX
                        &&& pnl_part >= 0 ==> usd_back + pnl_part <= u64::MAX
                        &&& release <= backing(p.side, sol, usdc).token_locked
                        &&& amount_back <= (if collateral_in_sol { sol.token_owned } else { usdc.token_owned })
                        &&& amount_back <= p.collateral_amount
                        &&& release <= p.locked_amount
                        &&& delta <= (if long { old(pool).long_open_interest_usd } else { old(pool).short_open_interest_usd })
                    } {
                        let settlement = if pnl_part >= 0 {
                            usd_back + pnl_part
                        } else if usd_back >= -pnl_part {
                            usd_back + pnl_part
                        } else {
                            0
                        };
                        &&& r == Ok::<SizeChangeReport, Error>(SizeChangeReport {
                            collateral_amount_returned: amount_back as u64,
                            locked_delta: release as u64,
                            settlement_usd: settlement as u64,
                        })
                        &&& *final(position) == (Position {
                            size_usd: (p.size_usd - delta) as u64,
                            collateral_usd: (p.collateral_usd - usd_back) as u64,
                            collateral_amount: (p.collateral_amount - amount_back) as u64,
                            locked_amount: (p.locked_amount - release) as u64,
                            update_time: current_time,
                            ..p
                        })
                        &&& final(sol_custody).token_locked == sol.token_locked - (if long { release } else { 0 })
                        &&& final(usdc_custody).token_locked == usdc.token_locked - (if long { 0 } else { release })
                        &&& final(sol_custody).token_owned == sol.token_owned - (if collateral_in_sol { amount_back } else { 0 })
                        &&& final(usdc_custody).token_owned == usdc.token_owned - (if collateral_in_sol { 0 } else { amount_back })
                        &&& same_custody_setup(*final(sol_custody), sol)
                        &&& same_custody_setup(*final(usdc_custody), usdc)
                        &&& final(pool).long_open_interest_usd == old(pool).long_open_interest_usd - amount_if(long, delta)
                        &&& final(pool).short_open_interest_usd == old(pool).short_open_interest_usd - amount_if(!long, delta)
                        &&& final(pool).cumulative_interest_rate_long == old(pool).cumulative_interest_rate_long
                        &&& final(pool).cumulative_interest_rate_short == old(pool).cumulative_interest_rate_short
                        &&& final(pool).bump == old(pool).bump
                        &&& final(pool).lp_token_bump == old(pool).lp_token_bump
                    } else {
                        r == Err::<SizeChangeReport, Error>(overflow())
                    }
                },
            }
        }),
        r is Err ==> {
            &&& *final(position) == *old(position)
            &&& *final(pool) == *old(pool)
            &&& *final(sol_custody) == *old(sol_custody)
            &&& *final(usdc_custody) == *old(usdc_custody)
        },
{
    if position.owner != owner {
        return Err(Error::TradingError(TradingError::Unauthorized));
    }
    if position.is_liquidated {
        return Err(Error::PerpetualError(PerpetualError::PositionLiquidated));
    }
    if position.order_type != OrderType::Market {
        return Err(Error::PerpetualError(PerpetualError::InvalidOrderType));
    }
    if params.size_delta_usd == 0 {
        return Err(Error::TradingError(TradingError::InvalidAmount));
    }
    let long = position.side == Side::Long;
    if params.is_increase {
        if params.collateral_delta == 0 {
            return Err(Error::TradingError(TradingError::InvalidAmount));
        }
        if funding_balance < params.collateral_delta {
            return Err(Error::TradingError(TradingError::InsufficientBalance));
        }
        let collateral_custody = if params.pay_sol {
            sol_custody_key
        } else {
            usdc_custody_key
        };
        if position.collateral_custody != collateral_custody {
            return Err(Error::PerpetualError(PerpetualError::InvalidCollateralAsset));
        }
        let new_size_usd = checked_add(position.size_usd, params.size_delta_usd)?;
        let new_collateral_usd = checked_add(position.collateral_usd, quote.collateral_usd_delta)?;
        let required = quote.required_liquidity_delta;
        let available = if long {
            sol_custody.token_owned.saturating_sub(sol_custody.token_locked)
        } else {
            usdc_custody.token_owned.saturating_sub(usdc_custody.token_locked)
        };
        if available < required {
            return Err(Error::TradingError(TradingError::InsufficientPoolLiquidity));
        }
        let new_sol_locked = if long {
            checked_add(sol_custody.token_locked, required)?
        } else {
            sol_custody.token_locked
        };
        let new_usdc_locked = if long {
            usdc_custody.token_locked
        } else {
            checked_add(usdc_custody.token_locked, required)?
        };
        let new_sol_owned = if params.pay_sol {
            checked_add(sol_custody.token_owned, params.collateral_delta)?
        } else {
            sol_custody.token_owned
        };
        let new_usdc_owned = if params.pay_sol {
            usdc_custody.token_owned
        } else {
            checked_add(usdc_custody.token_owned, params.collateral_delta)?
        };
        let new_collateral_amount = checked_add(position.collateral_amount, params.collateral_delta)?;
        let new_locked = checked_add(position.locked_amount, required)?;
        let new_long_oi = if long {
            checked_add(pool.long_open_interest_usd, params.size_delta_usd as u128)?
        } else {
            pool.long_open_interest_usd
        };
        let new_short_oi = if long {
            pool.short_open_interest_usd
        } else {
            checked_add(pool.short_open_interest_usd, params.size_delta_usd as u128)?
        };
        sol_custody.token_locked = new_sol_locked;
        sol_custody.token_owned = new_sol_owned;
        usdc_custody.token_locked = new_usdc_locked;
        usdc_custody.token_owned = new_usdc_owned;
        position.size_usd = new_size_usd;
        position.collateral_usd = new_collateral_usd;
        position.collateral_amount = new_collateral_amount;
        position.locked_amount = new_locked;
        pool.long_open_interest_usd = new_long_oi;
        pool.short_open_interest_usd = new_short_oi;
        position.update_time = current_time;
        Ok(SizeChangeReport { collateral_amount_returned: 0, locked_delta: required, settlement_usd: 0 })
    } else {
        if params.size_delta_usd >= position.size_usd {
            return Err(Error::TradingError(TradingError::InvalidAmount));
        }
        let size_reduction_ratio = crate::math::checked_div(params.size_delta_usd as u128, position.size_usd as u128)?;
        let collateral_usd_to_return = crate::math::checked_as_u64(
            crate::math::checked_mul(position.collateral_usd as u128, size_reduction_ratio)?,
        )?;
        let collateral_amount_to_return = crate::math::checked_as_u64(
            crate::math::checked_mul(position.collateral_amount as u128, size_reduction_ratio)?,
        )?;
        let locked_amount_to_release = crate::math::checked_as_u64(
            crate::math::checked_mul(position.locked_amount as u128, size_reduction_ratio)?,
        )?;
        let new_size_usd = checked_sub(position.size_usd, params.size_delta_usd)?;
        let new_collateral_usd = checked_sub(position.collateral_usd, collateral_usd_to_return)?;
        if new_size_usd < 1_000_000 {
            return Err(Error::TradingError(TradingError::PositionTooSmall));
        }
        let product = crate::math::checked_mul(pnl as i128, size_reduction_ratio as i128)?;
        let proportional_pnl = crate::math::checked_as_i64(product / 10_000)?;
        let settlement = if proportional_pnl >= 0 {
            checked_add(collateral_usd_to_return, proportional_pnl as u64)?
        } else {
            let loss = (-(proportional_pnl as i128)) as u64;
            collateral_usd_to_return.saturating_sub(loss)
        };
        let new_sol_locked = if long {
            checked_sub(sol_custody.token_locked, locked_amount_to_release)?
        } else {
            sol_custody.token_locked
        };
        let new_usdc_locked = if long {
            usdc_custody.token_locked
        } else {
            checked_sub(usdc_custody.token_locked, locked_amount_to_release)?
        };
        let collateral_in_sol = position.collateral_custody == sol_custody_key;
        let new_sol_owned = if collateral_in_sol {
            checked_sub(sol_custody.token_owned, collateral_amount_to_return)?
        } else {
            sol_custody.token_owned
        };
        let new_usdc_owned = if collateral_in_sol {
            usdc_custody.token_owned
        } else {
            checked_sub(usdc_custody.token_owned, collateral_amount_to_return)?
        };
        let new_collateral_amount = checked_sub(position.collateral_amount, collateral_amount_to_return)?;
        let new_locked = checked_sub(position.locked_amount, locked_amount_to_release)?;
        let new_long_oi = if long {
            checked_sub(pool.long_open_interest_usd, params.size_delta_usd as u128)?
        } else {
            pool.long_open_interest_usd
        };
        let new_short_oi = if long {
            pool.short_open_interest_usd
        } else {
            checked_sub(pool.short_open_interest_usd, params.size_delta_usd as u128)?
        };
        sol_custody.token_locked = new_sol_locked;
        sol_custody.token_owned = new_sol_owned;
        usdc_custody.token_locked = new_usdc_locked;
        usdc_custody.token_owned = new_usdc_owned;
        position.size_usd = new_size_usd;
        position.collateral_usd = new_collateral_usd;
        position.collateral_amount = new_collateral_amount;
        position.locked_amount = new_locked;
        pool.long_open_interest_usd = new_long_oi;
        pool.short_open_interest_usd = new_short_oi;
        position.update_time = current_time;
        Ok(
            SizeChangeReport {
                collateral_amount_returned: collateral_amount_to_return,
                locked_delta: locked_amount_to_release,
                settlement_usd: settlement,
            },
        )
    }
}

/// What the market and the float pricing give for a withdrawal of collateral.
#[derive(Debug, Clone, Copy, PartialEq, Eq, Structural)]
pub struct RemoveCollateralQuote {
    /// The dollar value of the withdrawn tokens.
    pub collateral_usd_to_remove: u64,
    /// Whether the leverage stays within the maximum.
    pub leverage_ok: bool,
    /// Whether the initial margin still meets the minimum.
    pub margin_ok: bool,
    /// The liquidation price at the new leverage.
    pub new_liquidation_price: u64,
    /// The current SOL price with six decimals.
    pub current_price: u64,
    /// The withdrawn value counted in the collateral's own asset, where the trader
    /// withdraws the other asset.
    pub cross_asset_amount: u64,
}

/// The owner's equity after a withdrawal: the new collateral plus the profit, or
/// less the loss and floored at zero.
pub open spec fn equity_after(collateral_usd: int, pnl: i64) -> int {
    if pnl >= 0 {
        collateral_usd + pnl
    } else if -pnl >= collateral_usd {
        0
    } else {
        collateral_usd + pnl
    }
}

/// The error, if any, of a withdrawal of `amount` tokens of collateral, checked in
/// the contract's order; the margin test asks for more than
/// `liquidation_margin_bps + 20` basis points of equity.
pub open spec fn remove_collateral_check(
    p: Position,
    owner: AccountKey,
    amount: u64,
    receive_sol: bool,
    quote: RemoveCollateralQuote,
    pnl: i64,
    liquidation_margin_bps: u64,
    sol: Custody,
    usdc: Custody,
) -> Option<Error> {
    let new_usd = p.collateral_usd - quote.collateral_usd_to_remove;
    let equity = equity_after(new_usd, pnl);
    if p.owner != owner {
        Some(Error::TradingError(TradingError::Unauthorized))
    } else if p.is_liquidated {
        Some(Error::PerpetualError(PerpetualError::PositionLiquidated))
    } else if p.order_type != OrderType::Market {
        Some(Error::PerpetualError(PerpetualError::InvalidOrderType))
    } else if amount == 0 || amount >= p.collateral_amount {
        Some(Error::TradingError(TradingError::InvalidAmount))
    } else if new_usd < 0 {
        Some(overflow())
    } else if !quote.leverage_ok || !quote.margin_ok {
        Some(Error::PerpetualError(PerpetualError::InvalidLeverage))
    } else if (p.side == Side::Long && quote.current_price <= quote.new_liquidation_price) || (p.side
        == Side::Short && quote.current_price >= quote.new_liquidation_price) {
        Some(Error::PerpetualError(PerpetualError::WouldCauseLiquidation))
    } else if p.size_usd == 0 || equity * 10_000 / (p.size_usd as int) > u64::MAX {
        Some(overflow())
    } else if equity * 10_000 / (p.size_usd as int) <= liquidation_margin_bps + 20 {
        Some(Error::PerpetualError(PerpetualError::InsufficientMargin))
    } else if (if receive_sol {
        sol.token_owned
    } else {
        usdc.token_owned
    }) < amount {
        Some(Error::TradingError(TradingError::InsufficientBalance))
    } else {
        None
    }
}

/// The tokens to take off the position's recorded collateral: the withdrawn amount
/// where it is paid in the collateral's own asset, its converted value otherwise.
pub open spec fn collateral_to_subtract(
    collateral_in_sol: bool,
    receive_sol: bool,
    amount: u64,
    cross_asset_amount: u64,
) -> u64 {
    if collateral_in_sol == receive_sol {
        amount
    } else {
        cross_asset_amount
    }
}

/// Withdraws `params.collateral_amount` tokens of collateral from a market
/// position, paid in SOL or USDC as `params.receive_sol` says.
///
/// The withdrawal must leave the position outside its liquidation price and with a
/// margin ratio above `liquidation_margin_bps + 20` basis points, and the custody
/// paid from must own the tokens. The tokens leave that custody; the position's
/// collateral drops by their value and by their count in its own asset. The
/// caller brings the borrow fees up to date. On an error nothing changes.
pub fn remove_collateral(
    position: &mut Position,
    sol_custody: &mut Custody,
    usdc_custody: &mut Custody,
    params: &RemoveCollateralParams,
    owner: AccountKey,
    sol_custody_key: AccountKey,
    quote: &RemoveCollateralQuote,
    pnl: i64,
    liquidation_margin_bps: u64,
    current_time: i64,
) -> (r: Result<u64, Error>)
    requires
        pnl > i64::MIN,
        pnl >= 0 ==> old(position).collateral_usd + pnl <= u64::MAX,
        liquidation_margin_bps + 20 <= u64::MAX,
    ensures
        ({
            let p = *old(position);
            let sol = *old(sol_custody);
            let usdc = *old(usdc_custody);
            let collateral_in_sol = p.collateral_custody == sol_custody_key;
            let sub = collateral_to_subtract(collateral_in_sol, params.receive_sol, params.collateral_amount, quote.cross_asset_amount);
            match remove_collateral_check(p, owner, params.collateral_amount, params.receive_sol, *quote, pnl, liquidation_margin_bps, sol, usdc) {
                Some(e) => r == Err::<u64, Error>(e),
                None => if sub <= p.collateral_amount {
                    &&& r == Ok::<u64, Error>(params.collateral_amount)
                    &&& *final(position) == (Position {
                        collateral_amount: (p.collateral_amount - sub) as u64,
                        collateral_usd: (p.collateral_usd - quote.collateral_usd_to_remove) as u64,
                        liquidation_price: quote.new_liquidation_price,
                        update_time: current_time,
                        ..p
                    })
                    &&& *final(sol_custody) == (Custody { token_owned: (sol.token_owned - amount_if(params.receive_sol, params.collateral_amount)) as u64, ..sol })
                    &&& *final(usdc_custody) == (Custody { token_owned: (usdc.token_owned - amount_if(!params.receive_sol, params.collateral_amount)) as u64, ..usdc })
                } else {
                    r == Err::<u64, Error>(overflow())
                },
            }
        }),
        r is Err ==> {
            &&& *final(position) == *old(position)
            &&& *final(sol_custody) == *old(sol_custody)
            &&& *final(usdc_custody) == *old(usdc_custody)
        },
        r is Ok ==> final(position).collateral_amount + (if (old(position).collateral_custody == sol_custody_key)
            == params.receive_sol {
            params.collateral_amount
        } else {
            quote.cross_asset_amount
        }) == old(position).collateral_amount,
{
    if position.owner != owner {
        return Err(Error::TradingError(TradingError::Unauthorized));
    }
    if position.is_liquidated {
        return Err(Error::PerpetualError(PerpetualError::PositionLiquidated));
    }
    if position.order_type != OrderType::Market {
        return Err(Error::PerpetualError(PerpetualError::InvalidOrderType));
    }
    if params.collateral_amount == 0 {
        return Err(Error::TradingError(TradingError::InvalidAmount));
    }
    if params.collateral_amount >= position.collateral_amount {
        return Err(Error::TradingError(TradingError::InvalidAmount));
    }
    let new_collateral_usd = checked_sub(position.collateral_usd, quote.collateral_usd_to_remove)?;
    if !quote.leverage_ok {
        return Err(Error::PerpetualError(PerpetualError::InvalidLeverage));
    }
    if !quote.margin_ok {
        return Err(Error::PerpetualError(PerpetualError::InvalidLeverage));
    }
    let would_be_liquidatable = match position.side {
        Side::Long => quote.current_price <= quote.new_liquidation_price,
        Side::Short => quote.current_price >= quote.new_liquidation_price,
    };
    if would_be_liquidatable {
        return Err(Error::PerpetualError(PerpetualError::WouldCauseLiquidation));
    }
    let new_equity = if pnl >= 0 {
        new_collateral_usd + pnl as u64
    } else {
        let loss = (-pnl) as u64;
        if loss >= new_collateral_usd {
            0
        } else {
            new_collateral_usd - loss
        }
    };
    proof {
        assert((new_equity as int) * 10_000 <= u128::MAX) by (nonlinear_arith)
            requires
                new_equity <= u64::MAX,
        ;
    }
    let new_margin_ratio_bps = crate::math::checked_as_u64(
        crate::math::checked_div(
            crate::math::checked_mul(new_equity as u128, 10_000u128)?,
            position.size_usd as u128,
        )?,
    )?;
    if new_margin_ratio_bps <= liquidation_margin_bps + 20 {
        return Err(Error::PerpetualError(PerpetualError::InsufficientMargin));
    }
    let withdrawal_tokens = params.collateral_amount;
    if params.receive_sol {
        if sol_custody.token_owned < withdrawal_tokens {
            return Err(Error::TradingError(TradingError::InsufficientBalance));
        }
    } else {
        if usdc_custody.token_owned < withdrawal_tokens {
            return Err(Error::TradingError(TradingError::InsufficientBalance));
        }
    }
    let collateral_in_sol = position.collateral_custody == sol_custody_key;
    let to_subtract = if collateral_in_sol == params.receive_sol {
        params.collateral_amount
    } else {
        quote.cross_asset_amount
    };
    let new_collateral_amount = checked_sub(position.collateral_amount, to_subtract)?;
    if params.receive_sol {
        sol_custody.token_owned = sol_custody.token_owned - withdrawal_tokens;
    } else {
        usdc_custody.token_owned = usdc_custody.token_owned - withdrawal_tokens;
    }
    position.collateral_amount = new_collateral_amount;
    position.collateral_usd = new_collateral_usd;
    position.liquidation_price = quote.new_liquidation_price;
    position.update_time = current_time;
    Ok(withdrawal_tokens)
}

/// Parameters of a deposit of collateral into a position.
#[derive(Debug, Clone, Copy, PartialEq, Eq, Structural)]
pub struct AddCollateralParams {
    pub position_index: u64,
    /// Tokens to add.
    pub collateral_amount: u64,
    /// Add SOL (`true`) or USDC.
    pub pay_sol: bool,
}

/// The leverage, initial margin and maintenance margin (in basis points) after a
/// deposit, as integer quotients; none where a divisor is zero.
pub open spec fn margins_after(size_usd: u64, collateral_usd: u64) -> Option<(u64, u64, u64)> {
    if collateral_usd == 0 {
        None
    } else {
        let leverage = size_usd / collateral_usd;
        if leverage == 0 {
            None
        } else {
            let initial = 10_000u64 / leverage;
            Some((leverage as u64, initial as u64, (initial / 2) as u64))
        }
    }
}

/// The error, if any, of the checks that open a deposit of collateral.
pub open spec fn add_collateral_check(
    p: Position,
    owner: AccountKey,
    params: AddCollateralParams,
    funding_balance: u64,
    paid_custody_key: AccountKey,
) -> Option<Error> {
    if p.owner != owner {
        Some(Error::TradingError(TradingError::Unauthorized))
    } else if p.is_liquidated {
        Some(Error::PerpetualError(PerpetualError::PositionLiquidated))
    } else if p.order_type != OrderType::Market {
        Some(Error::PerpetualError(PerpetualError::InvalidPositionType))
    } else if params.collateral_amount == 0 {
        Some(Error::TradingError(TradingError::InvalidAmount))
    } else if funding_balance < params.collateral_amount {
        Some(Error::TradingError(TradingError::InsufficientBalance))
    } else if p.collateral_custody != paid_custody_key {
        Some(Error::PerpetualError(PerpetualError::InvalidCollateralAsset))
    } else {
        None
    }
}

/// Adds collateral to a market position, in the asset it already holds.
///
/// `collateral_usd_to_add` is the deposit's dollar value. The tokens join the
/// custody they are paid in; the position's collateral, its borrowed size (size
/// less collateral, floored at zero) and its margins are recomputed: leverage is
/// the integer quotient of size by collateral, the initial margin `10_000 /
/// leverage` basis points and the maintenance margin half of it. The result is the
/// maintenance margin, from which the caller sets the liquidation price. On an
/// error nothing changes.
pub fn add_collateral(
    position: &mut Position,
    sol_custody: &mut Custody,
    usdc_custody: &mut Custody,
    params: &AddCollateralParams,
    owner: AccountKey,
    sol_custody_key: AccountKey,
    usdc_custody_key: AccountKey,
    funding_balance: u64,
    collateral_usd_to_add: u64,
    current_time: i64,
) -> (r: Result<u64, Error>)
    ensures
        ({
            let p = *old(position);
            let sol = *old(sol_custody);
            let usdc = *old(usdc_custody);
            let paid = if params.pay_sol { sol_custody_key } else { usdc_custody_key };
            let new_usd = p.collateral_usd + collateral_usd_to_add;
            match add_collateral_check(p, owner, *params, funding_balance, paid) {
                Some(e) => r == Err::<u64, Error>(e),
                None => if {
                    &&& (if params.pay_sol { sol.token_owned } else { usdc.token_owned }) + params.collateral_amount <= u64::MAX
                    &&& p.collateral_amount + params.collateral_amount <= u64::MAX
                    &&& new_usd <= u64::MAX
                    &&& margins_after(p.size_usd, new_usd as u64) is Some
                } {
                    let (_leverage, initial, maintenance) = margins_after(p.size_usd, new_usd as u64)->0;
                    &&& r == Ok::<u64, Error>(maintenance)
                    &&& *final(position) == (Position {
                        collateral_amount: (p.collateral_amount + params.collateral_amount) as u64,
                        collateral_usd: new_usd as u64,
                        borrow_size_usd: if p.size_usd >= new_usd { (p.size_usd - new_usd) as u64 } else { 0 },
                        initial_margin_bps: initial,
                        maintenance_margin_bps: maintenance,
                        update_time: current_time,
                        ..p
                    })
                    &&& *final(sol_custody) == (Custody { token_owned: (sol.token_owned + amount_if(params.pay_sol, params.collateral_amount)) as u64, ..sol })
                    &&& *final(usdc_custody) == (Custody { token_owned: (usdc.token_owned + amount_if(!params.pay_sol, params.collateral_amount)) as u64, ..usdc })
                } else {
                    r == Err::<u64, Error>(overflow())
                },
            }
        }),
        r is Err ==> {
            &&& *final(position) == *old(position)
            &&& *final(sol_custody) == *old(sol_custody)
            &&& *final(usdc_custody) == *old(usdc_custody)
        },
{
    if position.owner != owner {
        return Err(Error::TradingError(TradingError::Unauthorized));
    }
    if position.is_liquidated {
        return Err(Error::PerpetualError(PerpetualError::PositionLiquidated));
    }
    if position.order_type != OrderType::Market {
        return Err(Error::PerpetualError(PerpetualError::InvalidPositionType));
    }
    if params.collateral_amount == 0 {
        return Err(Error::TradingError(TradingError::InvalidAmount));
    }
    if funding_balance < params.collateral_amount {
        return Err(Error::TradingError(TradingError::InsufficientBalance));
    }
    let collateral_custody = if params.pay_sol {
        sol_custody_key
    } else {
        usdc_custody_key
    };
    if position.collateral_custody != collateral_custody {
        return Err(Error::PerpetualError(PerpetualError::InvalidCollateralAsset));
    }
    let new_sol_owned = if params.pay_sol {
        checked_add(sol_custody.token_owned, params.collateral_amount)?
    } else {
        sol_custody.token_owned
    };
    let new_usdc_owned = if params.pay_sol {
        usdc_custody.token_owned
    } else {
        checked_add(usdc_custody.token_owned, params.collateral_amount)?
    };
    let new_collateral_amount = checked_add(position.collateral_amount, params.collateral_amount)?;
    let new_collateral_usd = checked_add(position.collateral_usd, collateral_usd_to_add)?;
    let borrow_size_usd = position.size_usd.saturating_sub(new_collateral_usd);
    let new_leverage = crate::math::checked_div(position.size_usd, new_collateral_usd)?;
    let new_initial_margin_bps = crate::math::checked_div(10_000u64, new_leverage)?;
    let new_maintenance_margin_bps = crate::math::checked_div(new_initial_margin_bps, 2u64)?;
    sol_custody.token_owned = new_sol_owned;
    usdc_custody.token_owned = new_usdc_owned;
    position.collateral_amount = new_collateral_amount;
    position.collateral_usd = new_collateral_usd;
    position.borrow_size_usd = borrow_size_usd;
    position.initial_margin_bps = new_initial_margin_bps;
    position.maintenance_margin_bps = new_maintenance_margin_bps;
    position.update_time = current_time;
    Ok(new_maintenance_margin_bps)
}

/// Parameters of the execution of a take-profit or stop-loss order.
#[derive(Debug, Clone, Copy, PartialEq, Eq, Structural)]
pub struct ExecuteTpSlOrderParams {
    pub position_index: u64,
    pub contract_type: u8,
    /// `0` for a take-profit order, any other value for a stop-loss order.
    pub trigger_order_type: u8,
    pub order_index: u8,
}

/// The amounts that a partial close takes off a position.
#[derive(Debug, Clone, Copy, PartialEq, Eq, Structural)]
pub struct ClosedAmounts {
    pub size_usd: u64,
    pub collateral_amount: u64,
    pub collateral_usd: u64,
    pub locked_amount: u64,
    pub pnl: i64,
    pub interest: u64,
    pub trade_fees: u64,
}

/// A triggered take-profit or stop-loss order.
#[derive(Debug, Clone, Copy, PartialEq, Eq, Structural)]
pub struct TriggeredOrder {
    pub price: u64,
    pub size_percent: u64,
    pub receive_sol: bool,
    /// Whether it closes the whole position: its size is at least `10_000` basis points.
    pub is_full_close: bool,
}

/// The order that `params` names in the book, where the index lies below the
/// length of its list (counted modulo 256, as the contract does).
pub open spec fn named_order(book_tp: Seq<TpSlOrder>, book_sl: Seq<TpSlOrder>, params: ExecuteTpSlOrderParams) -> Option<TpSlOrder> {
    let orders = if params.trigger_order_type == 0 {
        book_tp
    } else {
        book_sl
    };
    if (params.order_index as int) < orders.len() % 256 {
        Some(orders[params.order_index as int])
    } else {
        None
    }
}

/// Whether a take-profit (`take_profit`) or stop-loss order at `order_price` fires
/// at `price` for a position on `side`: a long takes profit at or above it and
/// stops out at or below it, a short the other way round.
pub open spec fn tp_sl_triggered(take_profit: bool, side: Side, price: u64, order_price: u64) -> bool {
    if take_profit == (side == Side::Long) {
        price >= order_price
    } else {
        price <= order_price
    }
}

/// The error of selecting and triggering the named order, or the triggered order.
pub open spec fn tp_sl_selection(
    p: Position,
    position_key: AccountKey,
    book_owner: AccountKey,
    book_position: AccountKey,
    book_contract_type: u8,
    book_tp: Seq<TpSlOrder>,
    book_sl: Seq<TpSlOrder>,
    params: ExecuteTpSlOrderParams,
    price: u64,
) -> Result<TriggeredOrder, Error> {
    if p.owner != book_owner {
        Err(Error::TradingError(TradingError::Unauthorized))
    } else if p.is_liquidated {
        Err(Error::PerpetualError(PerpetualError::PositionLiquidated))
    } else if book_contract_type != params.contract_type {
        Err(Error::TradingError(TradingError::InvalidOrderType))
    } else if book_position != position_key {
        Err(Error::TradingError(TradingError::InvalidPosition))
    } else {
        match named_order(book_tp, book_sl, params) {
            None => Err(Error::TradingError(TradingError::InvalidAmount)),
            Some(order) => if !order.is_active {
                Err(Error::TradingError(TradingError::InvalidAmount))
            } else if !tp_sl_triggered(params.trigger_order_type == 0, p.side, price, order.price) {
                Err(Error::PerpetualError(PerpetualError::TpSlNotTriggered))
            } else {
                Ok(TriggeredOrder {
                    price: order.price,
                    size_percent: order.size_percent,
                    receive_sol: order.receive_sol,
                    is_full_close: order.size_percent >= 10_000,
                })
            },
        }
    }
}

/// Finds the order that `params` names and checks that it fires at `current_price`.
pub fn select_tp_sl_order(
    position: &Position,
    position_key: AccountKey,
    orderbook: &TpSlOrderbook,
    params: &ExecuteTpSlOrderParams,
    current_price: u64,
) -> (r: Result<TriggeredOrder, Error>)
    ensures
        r == tp_sl_selection(
            *position,
            position_key,
            orderbook.owner,
            orderbook.position,
            orderbook.contract_type,
            orderbook.take_profit_orders@,
            orderbook.stop_loss_orders@,
            *params,
            current_price,
        ),
{
    if position.owner != orderbook.owner {
        return Err(Error::TradingError(TradingError::Unauthorized));
    }
    if position.is_liquidated {
        return Err(Error::PerpetualError(PerpetualError::PositionLiquidated));
    }
    if orderbook.contract_type != params.contract_type {
        return Err(Error::TradingError(TradingError::InvalidOrderType));
    }
    if orderbook.position != position_key {
        return Err(Error::TradingError(TradingError::InvalidPosition));
    }
    let orders = if params.trigger_order_type == 0 {
        &orderbook.take_profit_orders
    } else {
        &orderbook.stop_loss_orders
    };
    let len = orders.len();
    let short_len = len as u8;
    proof {
        assert(short_len as int == len as int % 256) by (bit_vector)
            requires
                short_len == len as u8,
        ;
    }
    if !(params.order_index < short_len) {
        return Err(Error::TradingError(TradingError::InvalidAmount));
    }
    let order = orders[params.order_index as usize];
    if !order.is_active {
        return Err(Error::TradingError(TradingError::InvalidAmount));
    }
    let fired = if (params.trigger_order_type == 0) == (position.side == Side::Long) {
        current_price >= order.price
    } else {
        current_price <= order.price
    };
    if !fired {
        return Err(Error::PerpetualError(PerpetualError::TpSlNotTriggered));
    }
    Ok(
        TriggeredOrder {
            price: order.price,
            size_percent: order.size_percent,
            receive_sol: order.receive_sol,
            is_full_close: order.size_percent >= 10_000,
        },
    )
}

/// The amounts that a close removes: the whole position for a full close, the
/// given shares otherwise (with the whole interest and profit for a full close).
pub open spec fn amounts_to_close(p: Position, full: bool, partial: ClosedAmounts, pnl: i64, interest: u64) -> ClosedAmounts {
    if full {
        ClosedAmounts {
            size_usd: p.size_usd,
            collateral_amount: p.collateral_amount,
            collateral_usd: p.collateral_usd,
            locked_amount: p.locked_amount,
            pnl,
            interest,
            trade_fees: p.trade_fees,
        }
    } else {
        partial
    }
}

/// The result of a take-profit or stop-loss execution.
#[derive(Debug, Clone, Copy, PartialEq, Eq, Structural)]
pub struct TpSlExecution {
    pub order: TriggeredOrder,
    pub closed: ClosedAmounts,
    /// Dollars owed to the owner, paid in the order's asset.
    pub settlement_usd: u64,
}

/// The take-profit and stop-loss lists after the order that `params` names has been
/// executed: the order stays, no longer live, and a full close empties both lists.
pub open spec fn books_after_execution(
    tp: Seq<TpSlOrder>,
    sl: Seq<TpSlOrder>,
    params: ExecuteTpSlOrderParams,
    full: bool,
) -> (Seq<TpSlOrder>, Seq<TpSlOrder>) {
    if full {
        (Seq::empty(), Seq::empty())
    } else if params.trigger_order_type == 0 {
        (tp.update(params.order_index as int, spent_order(tp[params.order_index as int])), sl)
    } else {
        (tp, sl.update(params.order_index as int, spent_order(sl[params.order_index as int])))
    }
}

/// Executes the take-profit or stop-loss order that `params` names, once the
/// current price has reached it.
///
/// A full close (an order of at least `10_000` basis points) removes the whole
/// position and marks it closed; a partial one removes `partial`, the shares that
/// the caller computed for the order's size, with `pnl` and `interest_payment` the
/// position's profit and borrow interest. The settlement is collateral plus profit
/// less interest and trade fees, floored at zero. The released liquidity, the
/// returned collateral and the closed size leave the custodies and the pool. On an
/// error nothing changes.
pub fn execute_tp_sl_order(
    position: &mut Position,
    pool: &mut Pool,
    sol_custody: &mut Custody,
    usdc_custody: &mut Custody,
    position_key: AccountKey,
    sol_custody_key: AccountKey,
    orderbook: &mut TpSlOrderbook,
    params: &ExecuteTpSlOrderParams,
    current_price: u64,
    pnl: i64,
    interest_payment: u64,
    partial: &ClosedAmounts,
    current_time: i64,
) -> (r: Result<TpSlExecution, Error>)
    requires
        tp_sl_selection(
            *old(position),
            position_key,
            old(orderbook).owner,
            old(orderbook).position,
            old(orderbook).contract_type,
            old(orderbook).take_profit_orders@,
            old(orderbook).stop_loss_orders@,
            *params,
            current_price,
        ) matches Ok(o) ==> {
            let c = amounts_to_close(*old(position), o.is_full_close, *partial, pnl, interest_payment);
            settlement_fits(c.collateral_usd, c.pnl as int, c.interest, c.trade_fees)
        },
    ensures
        ({
            let p = *old(position);
            let sol = *old(sol_custody);
            let usdc = *old(usdc_custody);
            let long = p.side == Side::Long;
            let collateral_in_sol = p.collateral_custody == sol_custody_key;
            match tp_sl_selection(
                p,
                position_key,
                old(orderbook).owner,
                old(orderbook).position,
                old(orderbook).contract_type,
                old(orderbook).take_profit_orders@,
                old(orderbook).stop_loss_orders@,
                *params,
                current_price,
            ) {
                Err(e) => r == Err::<TpSlExecution, Error>(e),
                Ok(o) => {
                    let c = amounts_to_close(p, o.is_full_close, *partial, pnl, interest_payment);
                    if {
                        &&& c.locked_amount <= backing(p.side, sol, usdc).token_locked
                        &&& c.collateral_amount <= (if collateral_in_sol { sol.token_owned } else { usdc.token_owned })
                        &&& c.size_usd <= (if long { old(pool).long_open_interest_usd } else { old(pool).short_open_interest_usd })
                        &&& c.size_usd <= p.size_usd
                        &&& c.collateral_amount <= p.collateral_amount
                        &&& c.collateral_usd <= p.collateral_usd
                        &&& c.locked_amount <= p.locked_amount
                        &&& c.trade_fees <= p.trade_fees
                        &&& p.borrow_fees_paid + c.interest <= u64::MAX
                        &&& c.interest <= p.accrued_borrow_fees
                    } {
                        &&& r == Ok::<TpSlExecution, Error>(TpSlExecution {
                            order: o,
                            closed: c,
                            settlement_usd: settlement_usd(c.collateral_usd, c.pnl as int, c.interest, c.trade_fees),
                        })
                        &&& *final(position) == (Position {
                            is_liquidated: o.is_full_close,
                            size_usd: (p.size_usd - c.size_usd) as u64,
                            collateral_amount: (p.collateral_amount - c.collateral_amount) as u64,
                            collateral_usd: (p.collateral_usd - c.collateral_usd) as u64,
                            locked_amount: (p.locked_amount - c.locked_amount) as u64,
                            trade_fees: (p.trade_fees - c.trade_fees) as u64,
                            borrow_fees_paid: (p.borrow_fees_paid + c.interest) as u64,
                            accrued_borrow_fees: (p.accrued_borrow_fees - c.interest) as u64,
                            update_time: current_time,
                            ..p
                        })
                        &&& *final(sol_custody) == (Custody {
                            token_locked: (sol.token_locked - amount_if(long, c.locked_amount)) as u64,
                            token_owned: (sol.token_owned - amount_if(collateral_in_sol, c.collateral_amount)) as u64,
                            ..sol
                        })
                        &&& *final(usdc_custody) == (Custody {
                            token_locked: (usdc.token_locked - amount_if(!long, c.locked_amount)) as u64,
                            token_owned: (usdc.token_owned - amount_if(!collateral_in_sol, c.collateral_amount)) as u64,
                            ..usdc
                        })
                        &&& *final(pool) == (Pool {
                            long_open_interest_usd: (old(pool).long_open_interest_usd - amount_if(long, c.size_usd)) as u128,
                            short_open_interest_usd: (old(pool).short_open_interest_usd - amount_if(!long, c.size_usd)) as u128,
                            ..*old(pool)
                        })
                        &&& {
                            let after = books_after_execution(
                                old(orderbook).take_profit_orders@,
                                old(orderbook).stop_loss_orders@,
                                *params,
                                o.is_full_close,
                            );
                            holds_orders(*final(orderbook), *old(orderbook), after.0, after.1)
                        }
                    } else {
                        r == Err::<TpSlExecution, Error>(overflow())
                    }
                },
            }
        }),
        r is Err ==> {
            &&& holds_orders(
                *final(orderbook),
                *old(orderbook),
                old(orderbook).take_profit_orders@,
                old(orderbook).stop_loss_orders@,
            )
            &&& *final(position) == *old(position)
            &&& *final(pool) == *old(pool)
            &&& *final(sol_custody) == *old(sol_custody)
            &&& *final(usdc_custody) == *old(usdc_custody)
        },
{
    let order = select_tp_sl_order(position, position_key, orderbook, params, current_price)?;
    let full = order.is_full_close;
    let closed = if full {
        ClosedAmounts {
            size_usd: position.size_usd,
            collateral_amount: position.collateral_amount,
            collateral_usd: position.collateral_usd,
            locked_amount: position.locked_amount,
            pnl,
            interest: interest_payment,
            trade_fees: position.trade_fees,
        }
    } else {
        *partial
    };
    let settlement = compute_settlement_usd(
        closed.collateral_usd,
        closed.pnl,
        closed.interest,
        closed.trade_fees,
    );
    let long = position.side == Side::Long;
    let collateral_in_sol = position.collateral_custody == sol_custody_key;
    let new_sol_locked = if long {
        checked_sub(sol_custody.token_locked, closed.locked_amount)?
    } else {
        sol_custody.token_locked
    };
    let new_usdc_locked = if long {
        usdc_custody.token_locked
    } else {
        checked_sub(usdc_custody.token_locked, closed.locked_amount)?
    };
    let new_sol_owned = if collateral_in_sol {
        checked_sub(sol_custody.token_owned, closed.collateral_amount)?
    } else {
        sol_custody.token_owned
    };
    let new_usdc_owned = if collateral_in_sol {
        usdc_custody.token_owned
    } else {
        checked_sub(usdc_custody.token_owned, closed.collateral_amount)?
    };
    let new_long_oi = if long {
        checked_sub(pool.long_open_interest_usd, closed.size_usd as u128)?
    } else {
        pool.long_open_interest_usd
    };
    let new_short_oi = if long {
        pool.short_open_interest_usd
    } else {
        checked_sub(pool.short_open_interest_usd, closed.size_usd as u128)?
    };
    let new_size = checked_sub(position.size_usd, closed.size_usd)?;
    let new_collateral_amount = checked_sub(position.collateral_amount, closed.collateral_amount)?;
    let new_collateral_usd = checked_sub(position.collateral_usd, closed.collateral_usd)?;
    let new_locked = checked_sub(position.locked_amount, closed.locked_amount)?;
    let new_trade_fees = checked_sub(position.trade_fees, closed.trade_fees)?;
    let new_fees_paid = checked_add(position.borrow_fees_paid, closed.interest)?;
    let new_accrued = checked_sub(position.accrued_borrow_fees, closed.interest)?;

    if params.trigger_order_type == 0 {
        orderbook.mark_tp_executed(params.order_index as usize)?;
    } else {
        orderbook.mark_sl_executed(params.order_index as usize)?;
    }
    if full {
        orderbook.clear_all_orders();
    }
    sol_custody.token_locked = new_sol_locked;
    sol_custody.token_owned = new_sol_owned;
    usdc_custody.token_locked = new_usdc_locked;
    usdc_custody.token_owned = new_usdc_owned;
    pool.long_open_interest_usd = new_long_oi;
    pool.short_open_interest_usd = new_short_oi;
    if full {
        position.is_liquidated = true;
    }
    position.size_usd = new_size;
    position.collateral_amount = new_collateral_amount;
    position.collateral_usd = new_collateral_usd;
    position.locked_amount = new_locked;
    position.trade_fees = new_trade_fees;
    position.borrow_fees_paid = new_fees_paid;
    position.accrued_borrow_fees = new_accrued;
    position.update_time = current_time;
    Ok(TpSlExecution { order, closed, settlement_usd: settlement })
}

/// The error, if any, of the checks that open the cancellation of a limit order
/// (`close_percentage` in whole percent).
pub open spec fn cancel_limit_check(p: Position, owner: AccountKey, close_percentage: u8) -> Option<Error> {
    if p.owner != owner {
        Some(Error::TradingError(TradingError::Unauthorized))
    } else if p.is_liquidated {
        Some(Error::PerpetualError(PerpetualError::PositionLiquidated))
    } else if p.order_type != OrderType::Limit {
        Some(Error::PerpetualError(PerpetualError::NotLimitOrder))
    } else if p.size_usd == 0 {
        Some(Error::PerpetualError(PerpetualError::InvalidPositionSize))
    } else if !(0 < close_percentage <= 100) {
        Some(Error::TradingError(TradingError::InvalidAmount))
    } else {
        None
    }
}

/// Cancels `params.close_percentage` percent (1 to 100) of a pending limit order.
///
/// A full cancellation refunds the whole collateral and turns the position into an
/// empty, closed market position without a trigger price; a partial one removes
/// `partial`, the shares that the caller computed. The refunded collateral leaves
/// the custody that holds it; nothing was locked, so nothing is released. The
/// result is the refunded collateral in tokens. On an error nothing changes.
pub fn cancel_limit_order(
    position: &mut Position,
    sol_custody: &mut Custody,
    usdc_custody: &mut Custody,
    params: &CancelLimitOrderParams,
    owner: AccountKey,
    sol_custody_key: AccountKey,
    partial: &ClosedAmounts,
    current_time: i64,
) -> (r: Result<ClosedAmounts, Error>)
    ensures
        ({
            let p = *old(position);
            let sol = *old(sol_custody);
            let usdc = *old(usdc_custody);
            let full = params.close_percentage == 100;
            let collateral_in_sol = p.collateral_custody == sol_custody_key;
            let c = amounts_to_close(p, full, *partial, 0, 0);
            match cancel_limit_check(p, owner, params.close_percentage) {
                Some(e) => r == Err::<ClosedAmounts, Error>(e),
                None => if {
                    &&& c.collateral_amount <= (if collateral_in_sol { sol.token_owned } else { usdc.token_owned })
                    &&& c.size_usd <= p.size_usd
                    &&& c.collateral_amount <= p.collateral_amount
                    &&& c.collateral_usd <= p.collateral_usd
                    &&& c.locked_amount <= p.locked_amount
                } {
                    &&& r == Ok::<ClosedAmounts, Error>(c)
                    &&& *final(position) == (if full {
                        Position {
                            is_liquidated: true,
                            size_usd: 0,
                            collateral_amount: 0,
                            collateral_usd: 0,
                            locked_amount: 0,
                            trigger_price: None,
                            order_type: OrderType::Market,
                            update_time: current_time,
                            ..p
                        }
                    } else {
                        Position {
                            size_usd: (p.size_usd - c.size_usd) as u64,
                            collateral_amount: (p.collateral_amount - c.collateral_amount) as u64,
                            collateral_usd: (p.collateral_usd - c.collateral_usd) as u64,
                            locked_amount: (p.locked_amount - c.locked_amount) as u64,
                            update_time: current_time,
                            ..p
                        }
                    })
                    &&& *final(sol_custody) == (Custody { token_owned: (sol.token_owned - amount_if(collateral_in_sol, c.collateral_amount)) as u64, ..sol })
                    &&& *final(usdc_custody) == (Custody { token_owned: (usdc.token_owned - amount_if(!collateral_in_sol, c.collateral_amount)) as u64, ..usdc })
                } else {
                    r == Err::<ClosedAmounts, Error>(overflow())
                },
            }
        }),
        r is Err ==> {
            &&& *final(position) == *old(position)
            &&& *final(sol_custody) == *old(sol_custody)
            &&& *final(usdc_custody) == *old(usdc_custody)
        },
{
    if position.owner != owner {
        return Err(Error::TradingError(TradingError::Unauthorized));
    }
    if position.is_liquidated {
        return Err(Error::PerpetualError(PerpetualError::PositionLiquidated));
    }
    if position.order_type != OrderType::Limit {
        return Err(Error::PerpetualError(PerpetualError::NotLimitOrder));
    }
    if position.size_usd == 0 {
        return Err(Error::PerpetualError(PerpetualError::InvalidPositionSize));
    }
    if !(params.close_percentage > 0 && params.close_percentage <= 100) {
        return Err(Error::TradingError(TradingError::InvalidAmount));
    }
    let full = params.close_percentage == 100;
    let c = if full {
        ClosedAmounts {
            size_usd: position.size_usd,
            collateral_amount: position.collateral_amount,
            collateral_usd: position.collateral_usd,
            locked_amount: position.locked_amount,
            pnl: 0,
            interest: 0,
            trade_fees: position.trade_fees,
        }
    } else {
        *partial
    };
    let collateral_in_sol = position.collateral_custody == sol_custody_key;
    let new_sol_owned = if collateral_in_sol {
        checked_sub(sol_custody.token_owned, c.collateral_amount)?
    } else {
        sol_custody.token_owned
    };
    let new_usdc_owned = if collateral_in_sol {
        usdc_custody.token_owned
    } else {
        checked_sub(usdc_custody.token_owned, c.collateral_amount)?
    };
    let new_size = checked_sub(position.size_usd, c.size_usd)?;
    let new_collateral_amount = checked_sub(position.collateral_amount, c.collateral_amount)?;
    let new_collateral_usd = checked_sub(position.collateral_usd, c.collateral_usd)?;
    let new_locked = checked_sub(position.locked_amount, c.locked_amount)?;
    sol_custody.token_owned = new_sol_owned;
    usdc_custody.token_owned = new_usdc_owned;
    if full {
        position.is_liquidated = true;
        position.size_usd = 0;
        position.collateral_amount = 0;
        position.collateral_usd = 0;
        position.locked_amount = 0;
        position.trigger_price = None;
        position.order_type = OrderType::Market;
    } else {
        position.size_usd = new_size;
        position.collateral_amount = new_collateral_amount;
        position.collateral_usd = new_collateral_usd;
        position.locked_amount = new_locked;
    }
    position.update_time = current_time;
    Ok(c)
}

/// What the market gives for the execution of a limit order.
#[derive(Debug, Clone, Copy, PartialEq, Eq, Structural)]
pub struct LimitExecutionQuote {
    /// Whether the requested execution price is above zero.
    pub execution_price_positive: bool,
    /// The requested execution price with six decimals.
    pub execution_price: u64,
    /// Whether the position's trigger condition holds at that price.
    pub limit_triggered: bool,
    /// The current SOL price with six decimals.
    pub current_price: u64,
    /// The current USDC price with six decimals.
    pub usdc_price: u64,
}

/// The error, if any, of the checks that open the execution of a limit order: the
/// execution price must lie within one percent of the current price.
pub open spec fn execute_limit_check(p: Position, q: LimitExecutionQuote) -> Option<Error> {
    let tolerance = q.current_price / 100;
    let low = if q.current_price >= tolerance { q.current_price - tolerance } else { 0 };
    let high = if q.current_price + tolerance <= u64::MAX { q.current_price + tolerance } else { u64::MAX as int };
    if p.is_liquidated {
        Some(Error::PerpetualError(PerpetualError::PositionLiquidated))
    } else if p.order_type != OrderType::Limit {
        Some(Error::PerpetualError(PerpetualError::NotLimitOrder))
    } else if !q.execution_price_positive {
        Some(Error::TradingError(TradingError::InvalidPrice))
    } else if !q.limit_triggered {
        Some(Error::PerpetualError(PerpetualError::LimitOrderNotTriggered))
    } else if !(low <= q.execution_price <= high) {
        Some(Error::PerpetualError(PerpetualError::InvalidExecutionPrice))
    } else {
        None
    }
}

/// The dollar values that an executed limit order records: a long counts its locked
/// and collateral tokens (nine decimals) in whole units at the current price, a
/// short counts them (six decimals) at the USDC price.
pub open spec fn executed_values(p: Position, q: LimitExecutionQuote) -> (int, int) {
    if p.side == Side::Long {
        ((p.locked_amount / 1_000_000_000) * q.current_price, (p.collateral_amount / 1_000_000_000) * q.current_price)
    } else {
        ((p.locked_amount / 1_000_000) * q.usdc_price, (p.collateral_amount / 1_000_000) * q.usdc_price)
    }
}

/// Turns a triggered limit order into a market position at the current price.
///
/// The position's dollar size and collateral are recounted at the current prices,
/// its entry price becomes the current price and its borrow fees start accruing
/// now; its locked liquidity is locked in the side's custody and its size joins the
/// side's open interest. The result is the new leverage, the integer quotient of
/// size by collateral, from which the caller sets the liquidation price. On an
/// error nothing changes.
pub fn execute_limit_order(
    position: &mut Position,
    pool: &mut Pool,
    sol_custody: &mut Custody,
    usdc_custody: &mut Custody,
    quote: &LimitExecutionQuote,
    current_time: i64,
) -> (r: Result<u64, Error>)
    requires
        execute_limit_check(*old(position), *quote) is None ==> {
            let (size, collateral) = executed_values(*old(position), *quote);
            size <= u64::MAX && collateral <= u64::MAX
        },
    ensures
        ({
            let p = *old(position);
            let sol = *old(sol_custody);
            let usdc = *old(usdc_custody);
            let long = p.side == Side::Long;
            let (size, collateral) = executed_values(p, *quote);
            match execute_limit_check(p, *quote) {
                Some(e) => r == Err::<u64, Error>(e),
                None => if {
                    &&& collateral != 0
                    &&& backing(p.side, sol, usdc).token_locked + p.locked_amount <= u64::MAX
                    &&& (if long { old(pool).long_open_interest_usd } else { old(pool).short_open_interest_usd }) + size <= u128::MAX
                } {
                    &&& r == Ok::<u64, Error>((size / collateral) as u64)
                    &&& *final(position) == (Position {
                        size_usd: size as u64,
                        collateral_usd: collateral as u64,
                        price: quote.current_price,
                        order_type: OrderType::Market,
                        last_borrow_fees_update_time: current_time,
                        ..p
                    })
                    &&& *final(sol_custody) == (Custody { token_locked: (sol.token_locked + amount_if(long, p.locked_amount)) as u64, ..sol })
                    &&& *final(usdc_custody) == (Custody { token_locked: (usdc.token_locked + amount_if(!long, p.locked_amount)) as u64, ..usdc })
                    &&& *final(pool) == (Pool {
                        long_open_interest_usd: (old(pool).long_open_interest_usd + amount_if(long, size as u64)) as u128,
                        short_open_interest_usd: (old(pool).short_open_interest_usd + amount_if(!long, size as u64)) as u128,
                        ..*old(pool)
                    })
                } else {
                    r == Err::<u64, Error>(overflow())
                },
            }
        }),
        r is Err ==> {
            &&& *final(position) == *old(position)
            &&& *final(pool) == *old(pool)
            &&& *final(sol_custody) == *old(sol_custody)
            &&& *final(usdc_custody) == *old(usdc_custody)
        },
{
    if position.is_liquidated {
        return Err(Error::PerpetualError(PerpetualError::PositionLiquidated));
    }
    if position.order_type != OrderType::Limit {
        return Err(Error::PerpetualError(PerpetualError::NotLimitOrder));
    }
    if !quote.execution_price_positive {
        return Err(Error::TradingError(TradingError::InvalidPrice));
    }
    if !quote.limit_triggered {
        return Err(Error::PerpetualError(PerpetualError::LimitOrderNotTriggered));
    }
    let price_tolerance = crate::math::checked_div(quote.current_price, 100u64)?;
    if !(quote.execution_price >= quote.current_price.saturating_sub(price_tolerance)
        && quote.execution_price <= quote.current_price.saturating_add(price_tolerance)) {
        return Err(Error::PerpetualError(PerpetualError::InvalidExecutionPrice));
    }
    let long = position.side == Side::Long;
    let (size_usd, collateral_usd) = if long {
        (
            crate::math::checked_div(position.locked_amount, 1_000_000_000u64)? * quote.current_price,
            crate::math::checked_div(position.collateral_amount, 1_000_000_000u64)? * quote.current_price,
        )
    } else {
        (
            crate::math::checked_div(position.locked_amount, 1_000_000u64)? * quote.usdc_price,
            crate::math::checked_div(position.collateral_amount, 1_000_000u64)? * quote.usdc_price,
        )
    };
    let new_leverage = crate::math::checked_div(size_usd, collateral_usd)?;
    let new_sol_locked = if long {
        checked_add(sol_custody.token_locked, position.locked_amount)?
    } else {
        sol_custody.token_locked
    };
    let new_usdc_locked = if long {
        usdc_custody.token_locked
    } else {
        checked_add(usdc_custody.token_locked, position.locked_amount)?
    };
    let new_long_oi = if long {
        checked_add(pool.long_open_interest_usd, size_usd as u128)?
    } else {
        pool.long_open_interest_usd
    };
    let new_short_oi = if long {
        pool.short_open_interest_usd
    } else {
        checked_add(pool.short_open_interest_usd, size_usd as u128)?
    };
    position.size_usd = size_usd;
    position.collateral_usd = collateral_usd;
    position.price = quote.current_price;
    position.order_type = OrderType::Market;
    position.last_borrow_fees_update_time = current_time;
    sol_custody.token_locked = new_sol_locked;
    usdc_custody.token_locked = new_usdc_locked;
    pool.long_open_interest_usd = new_long_oi;
    pool.short_open_interest_usd = new_short_oi;
    Ok(new_leverage)
}

} // verus!
