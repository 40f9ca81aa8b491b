use option_contract::errors::{Error, PerpetualError, TradingError};
use option_contract::perp::{
    add_collateral, cancel_limit_order, CancelLimitOrderParams, close_perp_position, execute_limit_order, execute_tp_sl_order, liquidate,
    open_perp_position, realized_pnl, AddCollateralParams, ClosePerpPositionParams, ClosedAmounts,
    ExecuteTpSlOrderParams, LimitExecutionQuote, OpenPerpPositionParams, OpenPerpQuote, PositionKeys,
};
use option_contract::perp::{
    remove_collateral, update_position_size, RemoveCollateralParams, RemoveCollateralQuote, SizeIncreaseQuote,
    UpdatePositionSizeParams,
};
use option_contract::state::{AccountKey, Custody, OraclePrice, OrderType, Pool, Position, Side, TpSlOrderbook};

fn key(n: u128) -> AccountKey {
    AccountKey { hi: 1, lo: n }
}

const SOL: u128 = 3;
const USDC: u128 = 4;

fn custody(decimals: u8, owned: u64, locked: u64) -> Custody {
    Custody {
        token_owned: owned,
        token_locked: locked,
        decimals,
        pool: key(2),
        mint: key(30),
        token_account: key(31),
        oracle: key(32),
        bump: 1,
        token_account_bump: 2,
    }
}

fn pool() -> Pool {
    Pool {
        long_open_interest_usd: 0,
        short_open_interest_usd: 0,
        cumulative_interest_rate_long: 11,
        cumulative_interest_rate_short: 12,
        bump: 250,
        lp_token_bump: 251,
    }
}

fn sol_price() -> OraclePrice {
    OraclePrice { price: 150_000_000, exponent: -6 }
}

fn usdc_price() -> OraclePrice {
    OraclePrice { price: 100_000_000, exponent: -8 }
}

fn keys() -> PositionKeys {
    PositionKeys { owner: key(1), pool: key(2), sol_custody: key(SOL), usdc_custody: key(USDC), bump: 9 }
}

fn open_params(order_type: OrderType) -> OpenPerpPositionParams {
    OpenPerpPositionParams {
        size_amount: 10,
        collateral_amount: 1_000_000_000,
        side: Side::Long,
        order_type,
        trigger_price: Some(140_000_000),
        trigger_above_threshold: false,
        max_slippage: 100,
        pool_name: String::from("SOL-USDC"),
        pay_sol: true,
    }
}

fn open_quote() -> OpenPerpQuote {
    OpenPerpQuote {
        collateral_usd: 150_000_000,
        size_usd: 1_500_000_000,
        current_price: 150_000_000,
        liquidation_price: 136_000_000,
        leverage_ok: true,
        margin_ok: true,
    }
}

/// A ten-times long of one SOL at 150 dollars.
fn opened_long() -> (Position, Pool, Custody, Custody) {
    let mut p = pool();
    let mut sol = custody(9, 100_000_000_000, 0);
    let mut usdc = custody(6, 100_000_000_000, 0);
    let mut count = 0u64;
    let position = open_perp_position(
        &mut p, &mut sol, &mut usdc, &mut count, &open_params(OrderType::Market), &open_quote(), &keys(),
        &sol_price(), &usdc_price(), 2_000_000_000, 10, 100,
    )
    .unwrap();
    (position, p, sol, usdc)
}

#[test]
fn opening_locks_liquidity_and_adds_open_interest() {
    let (position, p, sol, usdc) = opened_long();
    // 1500 dollars at 150 dollars a SOL lock ten SOL.
    assert_eq!(position.locked_amount, 10_000_000_000);
    assert_eq!((position.size_usd, position.collateral_usd, position.collateral_amount), (1_500_000_000, 150_000_000, 1_000_000_000));
    assert_eq!((position.price, position.trade_fees, position.index, position.owner), (150_000_000, 1_500_000, 1, key(1)));
    assert_eq!((position.execution_time, position.cumulative_interest_snapshot), (Some(100), 11));
    assert_eq!((sol.token_locked, sol.token_owned, usdc.token_owned), (10_000_000_000, 101_000_000_000, 100_000_000_000));
    assert_eq!((p.long_open_interest_usd, p.short_open_interest_usd), (1_500_000_000, 0));
}

#[test]
fn opening_errors() {
    let mut p = pool();
    let mut sol = custody(9, 1_000, 0);
    let mut usdc = custody(6, 100_000_000_000, 0);
    let mut count = 0u64;
    let r = open_perp_position(
        &mut p, &mut sol, &mut usdc, &mut count, &open_params(OrderType::Market), &open_quote(), &keys(),
        &sol_price(), &usdc_price(), 2_000_000_000, 10, 100,
    );
    assert_eq!(r, Err(Error::TradingError(TradingError::InsufficientPoolLiquidity)));
    let r = open_perp_position(
        &mut p, &mut sol, &mut usdc, &mut count, &open_params(OrderType::Market), &open_quote(), &keys(),
        &sol_price(), &usdc_price(), 5, 10, 100,
    );
    assert_eq!(r, Err(Error::TradingError(TradingError::InsufficientBalance)));
    let greedy = OpenPerpPositionParams { max_slippage: 1_001, ..open_params(OrderType::Market) };
    let r = open_perp_position(
        &mut p, &mut sol, &mut usdc, &mut count, &greedy, &open_quote(), &keys(), &sol_price(), &usdc_price(),
        2_000_000_000, 10, 100,
    );
    assert_eq!(r, Err(Error::TradingError(TradingError::InvalidSlippage)));
    let leveraged = OpenPerpQuote { leverage_ok: false, ..open_quote() };
    let r = open_perp_position(
        &mut p, &mut sol, &mut usdc, &mut count, &open_params(OrderType::Market), &leveraged, &keys(),
        &sol_price(), &usdc_price(), 2_000_000_000, 10, 100,
    );
    assert_eq!(r, Err(Error::PerpetualError(PerpetualError::InvalidLeverage)));
    assert_eq!((count, sol.token_owned, p.long_open_interest_usd), (0, 1_000, 0));
}

#[test]
fn half_close_then_full_close() {
    let (mut position, mut p, mut sol, mut usdc) = opened_long();
    let mut book = Some(book_with_orders());
    let half = ClosePerpPositionParams { position_index: 1, contract_type: 0, close_percentage: 50_000_000, receive_sol: true };
    let rep = close_perp_position(&mut position, &mut p, &mut sol, &mut usdc, &mut book, Some(true), &half, key(1), key(SOL), &sol_price(), &usdc_price(), 0, 0, 200).unwrap();
    // Half the collateral (75 dollars) less half the exit fee (0.75 dollars).
    assert_eq!((rep.size_usd_closed, rep.locked_released, rep.collateral_amount_closed), (750_000_000, 5_000_000_000, 500_000_000));
    assert_eq!((rep.settlement_usd, rep.settlement_tokens, rep.is_full_close), (74_250_000, 495_000_000, false));
    assert_eq!((position.size_usd, position.locked_amount, position.trade_fees), (750_000_000, 5_000_000_000, 750_000));
    assert_eq!((sol.token_locked, p.long_open_interest_usd), (5_000_000_000, 750_000_000));
    assert_eq!(book.as_ref().map(|b| (b.take_profit_orders.len(), b.stop_loss_orders.len())), Some((1, 1)));
    let all = ClosePerpPositionParams { close_percentage: 100_000_000, receive_sol: false, ..half };
    let rep = close_perp_position(&mut position, &mut p, &mut sol, &mut usdc, &mut book, Some(true), &all, key(1), key(SOL), &sol_price(), &usdc_price(), 15_000_000, 0, 300).unwrap();
    // 75 dollars of collateral plus 15 of profit less 0.75 of fees, paid in USDC.
    assert_eq!((rep.settlement_usd, rep.settlement_tokens, rep.is_full_close), (89_250_000, 89_250_000, true));
    assert_eq!((position.size_usd, position.collateral_amount, position.locked_amount, position.is_liquidated), (0, 0, 0, true));
    assert_eq!((sol.token_locked, p.long_open_interest_usd), (0, 0));
    assert_eq!(book.as_ref().map(|b| (b.take_profit_orders.len(), b.stop_loss_orders.len(), b.owner)), Some((0, 0, key(1))));
    let again = close_perp_position(&mut position, &mut p, &mut sol, &mut usdc, &mut book, Some(true), &all, key(1), key(SOL), &sol_price(), &usdc_price(), 0, 0, 400);
    assert_eq!(again.map(|r| r.size_usd_closed), Err(Error::PerpetualError(PerpetualError::PositionLiquidated)));
}

#[test]
fn perp_close_errors() {
    let (mut position, mut p, mut sol, mut usdc) = opened_long();
    let mut book: Option<TpSlOrderbook> = None;
    let zero = ClosePerpPositionParams { position_index: 1, contract_type: 0, close_percentage: 0, receive_sol: true };
    let r = close_perp_position(&mut position, &mut p, &mut sol, &mut usdc, &mut book, Some(true), &zero, key(1), key(SOL), &sol_price(), &usdc_price(), 0, 0, 200);
    assert_eq!(r.map(|r| r.size_usd_closed), Err(Error::TradingError(TradingError::InvalidAmount)));
    let half = ClosePerpPositionParams { close_percentage: 50_000_000, ..zero };
    let r = close_perp_position(&mut position, &mut p, &mut sol, &mut usdc, &mut book, Some(true), &half, key(7), key(SOL), &sol_price(), &usdc_price(), 0, 0, 200);
    assert_eq!(r.map(|r| r.size_usd_closed), Err(Error::TradingError(TradingError::Unauthorized)));
    // A full close with a book account at another address is refused, and changes nothing.
    let mut other_book = Some(book_with_orders());
    let all = ClosePerpPositionParams { close_percentage: 100_000_000, ..half };
    let r = close_perp_position(&mut position, &mut p, &mut sol, &mut usdc, &mut other_book, Some(false), &all, key(1), key(SOL), &sol_price(), &usdc_price(), 0, 0, 200);
    assert_eq!(r.map(|r| r.size_usd_closed), Err(Error::TradingError(TradingError::Unauthorized)));
    assert_eq!(other_book.as_ref().map(|b| b.take_profit_orders.len()), Some(1));
    assert_eq!((position.size_usd, sol.token_locked), (1_500_000_000, 10_000_000_000));
    // Without a book account the full close goes ahead.
    let r = close_perp_position(&mut position, &mut p, &mut sol, &mut usdc, &mut book, None, &all, key(1), key(SOL), &sol_price(), &usdc_price(), 0, 0, 200);
    assert_eq!(r.map(|r| r.size_usd_closed), Ok(1_500_000_000));
}

#[test]
fn realized_profit_is_proportional() {
    assert_eq!(realized_pnl(1_000, 50_000_000), 500);
    assert_eq!(realized_pnl(-1_001, 50_000_000), -500);
    assert_eq!(realized_pnl(-1_001, 100_000_000), -1_001);
}

#[test]
fn liquidation_releases_everything() {
    let (mut position, mut p, mut sol, mut usdc) = opened_long();
    let mut book = Some(book_with_orders());
    position.accrued_borrow_fees = 1_000_000;
    let r = liquidate(&mut position, &mut p, &mut sol, &mut usdc, &mut book, Some(true), key(SOL), false, false, -140_000_000, 0, 500);
    assert_eq!(r.map(|r| r.size_usd_closed), Err(Error::PerpetualError(PerpetualError::PositionNotLiquidatable)));
    let rep = liquidate(&mut position, &mut p, &mut sol, &mut usdc, &mut book, Some(true), key(SOL), true, false, -140_000_000, 1_000_000, 500).unwrap();
    // 150 dollars of collateral, 140 of loss, 1 of interest and 1.5 of fees.
    assert_eq!(rep.settlement_usd, 7_500_000);
    assert_eq!((rep.locked_released, rep.collateral_amount_released, rep.size_usd_closed), (10_000_000_000, 1_000_000_000, 1_500_000_000));
    assert_eq!((position.is_liquidated, position.size_usd, position.locked_amount), (true, 0, 0));
    assert_eq!((position.accrued_borrow_fees, position.borrow_fees_paid), (0, 1_000_000));
    assert_eq!(book.as_ref().map(|b| (b.take_profit_orders.len(), b.stop_loss_orders.len())), Some((0, 0)));
    assert_eq!((sol.token_locked, sol.token_owned, p.long_open_interest_usd), (0, 100_000_000_000, 0));
}

#[test]
fn adding_collateral_lowers_leverage() {
    let (mut position, _p, mut sol, mut usdc) = opened_long();
    let params = AddCollateralParams { position_index: 1, collateral_amount: 1_000_000_000, pay_sol: true };
    let r = add_collateral(&mut position, &mut sol, &mut usdc, &params, key(1), key(SOL), key(USDC), 5, 150_000_000, 600);
    assert_eq!(r, Err(Error::TradingError(TradingError::InsufficientBalance)));
    let usdc_params = AddCollateralParams { pay_sol: false, ..params };
    let r = add_collateral(&mut position, &mut sol, &mut usdc, &usdc_params, key(1), key(SOL), key(USDC), 2_000_000_000, 150_000_000, 600);
    assert_eq!(r, Err(Error::PerpetualError(PerpetualError::InvalidCollateralAsset)));
    // Leverage five: an initial margin of 2000 basis points, a maintenance margin of 1000.
    let r = add_collateral(&mut position, &mut sol, &mut usdc, &params, key(1), key(SOL), key(USDC), 2_000_000_000, 150_000_000, 600);
    assert_eq!(r, Ok(1_000));
    assert_eq!((position.collateral_amount, position.collateral_usd, position.borrow_size_usd), (2_000_000_000, 300_000_000, 1_200_000_000));
    assert_eq!((position.initial_margin_bps, position.maintenance_margin_bps, position.update_time), (2_000, 1_000, 600));
    assert_eq!(sol.token_owned, 102_000_000_000);
}

fn book_with_orders() -> TpSlOrderbook {
    let mut b = TpSlOrderbook {
        owner: key(1),
        position: key(9),
        contract_type: 0,
        take_profit_orders: Vec::new(),
        stop_loss_orders: Vec::new(),
        bump: 1,
    };
    b.add_take_profit_order(160_000_000, 5_000, true);
    b.add_stop_loss_order(140_000_000, 10_000, false);
    b
}

#[test]
fn take_profit_fires_once() {
    let (mut position, mut p, mut sol, mut usdc) = opened_long();
    let mut b = book_with_orders();
    let tp = ExecuteTpSlOrderParams { position_index: 1, contract_type: 0, trigger_order_type: 0, order_index: 0 };
    let partial = ClosedAmounts {
        size_usd: 750_000_000,
        collateral_amount: 500_000_000,
        collateral_usd: 75_000_000,
        locked_amount: 5_000_000_000,
        pnl: 50_000_000,
        interest: 0,
        trade_fees: 750_000,
    };
    let early = execute_tp_sl_order(&mut position, &mut p, &mut sol, &mut usdc, key(9), key(SOL), &mut b, &tp, 155_000_000, 0, 0, &partial, 700);
    assert_eq!(early.map(|e| e.settlement_usd), Err(Error::PerpetualError(PerpetualError::TpSlNotTriggered)));
    let done = execute_tp_sl_order(&mut position, &mut p, &mut sol, &mut usdc, key(9), key(SOL), &mut b, &tp, 160_000_000, 0, 0, &partial, 700).unwrap();
    assert_eq!((done.order.is_full_close, done.settlement_usd), (false, 124_250_000));
    assert_eq!((position.size_usd, sol.token_locked, p.long_open_interest_usd), (750_000_000, 5_000_000_000, 750_000_000));
    assert!(!b.take_profit_orders[0].is_active);
    let again = execute_tp_sl_order(&mut position, &mut p, &mut sol, &mut usdc, key(9), key(SOL), &mut b, &tp, 170_000_000, 0, 0, &partial, 701);
    assert_eq!(again.map(|e| e.settlement_usd), Err(Error::TradingError(TradingError::InvalidAmount)));
    // The stop-loss closes everything and clears the book.
    let sl = ExecuteTpSlOrderParams { trigger_order_type: 1, ..tp };
    let done = execute_tp_sl_order(&mut position, &mut p, &mut sol, &mut usdc, key(9), key(SOL), &mut b, &sl, 139_000_000, -5_000_000, 0, &partial, 702).unwrap();
    assert!(done.order.is_full_close);
    assert_eq!((position.size_usd, position.locked_amount, position.is_liquidated), (0, 0, true));
    assert!(b.take_profit_orders.is_empty() && b.stop_loss_orders.is_empty());
    assert_eq!((sol.token_locked, p.long_open_interest_usd), (0, 0));
}

fn cancel(close_percentage: u8) -> CancelLimitOrderParams {
    CancelLimitOrderParams { position_index: 4, pool_name: String::from("SOL-USDC"), close_percentage, receive_sol: true }
}

fn limit_long() -> Position {
    let mut p = pool();
    let mut sol = custody(9, 100_000_000_000, 0);
    let mut usdc = custody(6, 100_000_000_000, 0);
    let mut count = 3u64;
    open_perp_position(
        &mut p, &mut sol, &mut usdc, &mut count, &open_params(OrderType::Limit), &open_quote(), &keys(),
        &sol_price(), &usdc_price(), 2_000_000_000, 10, 100,
    )
    .unwrap()
}

#[test]
fn limit_orders_wait_for_their_price() {
    let position = limit_long();
    assert_eq!((position.index, position.price, position.execution_time, position.order_type), (4, 140_000_000, None, OrderType::Limit));
    let mut p = pool();
    let mut sol = custody(9, 100_000_000_000, 0);
    let mut usdc = custody(6, 100_000_000_000, 0);
    let q = LimitExecutionQuote {
        execution_price_positive: true,
        execution_price: 140_000_000,
        limit_triggered: false,
        current_price: 140_000_000,
        usdc_price: 1_000_000,
    };
    let mut waiting = position;
    assert_eq!(
        execute_limit_order(&mut waiting, &mut p, &mut sol, &mut usdc, &q, 800),
        Err(Error::PerpetualError(PerpetualError::LimitOrderNotTriggered))
    );
    let far = LimitExecutionQuote { limit_triggered: true, execution_price: 150_000_000, ..q };
    assert_eq!(
        execute_limit_order(&mut waiting, &mut p, &mut sol, &mut usdc, &far, 800),
        Err(Error::PerpetualError(PerpetualError::InvalidExecutionPrice))
    );
    let fired = LimitExecutionQuote { limit_triggered: true, ..q };
    let leverage = execute_limit_order(&mut waiting, &mut p, &mut sol, &mut usdc, &fired, 800).unwrap();
    assert_eq!(waiting.order_type, OrderType::Market);
    assert_eq!((waiting.price, waiting.execution_time, waiting.last_borrow_fees_update_time), (140_000_000, None, 800));
    assert_eq!(leverage, waiting.size_usd / waiting.collateral_usd);
    assert_eq!((sol.token_locked, p.long_open_interest_usd), (waiting.locked_amount, waiting.size_usd as u128));
}

#[test]
fn cancelling_a_limit_order_refunds_collateral() {
    let mut position = limit_long();
    let mut sol = custody(9, 100_000_000_000, 0);
    let mut usdc = custody(6, 100_000_000_000, 0);
    let nothing = ClosedAmounts { size_usd: 0, collateral_amount: 0, collateral_usd: 0, locked_amount: 0, pnl: 0, interest: 0, trade_fees: 0 };
    assert_eq!(
        cancel_limit_order(&mut position, &mut sol, &mut usdc, &cancel(0), key(1), key(SOL), &nothing, 900),
        Err(Error::TradingError(TradingError::InvalidAmount))
    );
    assert_eq!(
        cancel_limit_order(&mut position, &mut sol, &mut usdc, &cancel(100), key(8), key(SOL), &nothing, 900),
        Err(Error::TradingError(TradingError::Unauthorized))
    );
    let refunded = cancel_limit_order(&mut position, &mut sol, &mut usdc, &cancel(100), key(1), key(SOL), &nothing, 900).unwrap();
    assert_eq!(refunded.collateral_amount, 1_000_000_000);
    assert_eq!(sol.token_owned, 99_000_000_000);
    assert_eq!((position.is_liquidated, position.size_usd, position.order_type), (true, 0, OrderType::Market));
    let (mut market, _p, _s, _u) = opened_long();
    assert_eq!(
        cancel_limit_order(&mut market, &mut sol, &mut usdc, &cancel(100), key(1), key(SOL), &nothing, 900),
        Err(Error::PerpetualError(PerpetualError::NotLimitOrder))
    );
}

fn withdrawal(amount: u64) -> RemoveCollateralParams {
    RemoveCollateralParams { position_index: 1, pool_name: String::from("SOL-USDC"), collateral_amount: amount, receive_sol: true }
}

fn withdrawal_quote(usd: u64, new_liquidation_price: u64) -> RemoveCollateralQuote {
    RemoveCollateralQuote {
        collateral_usd_to_remove: usd,
        leverage_ok: true,
        margin_ok: true,
        new_liquidation_price,
        current_price: 150_000_000,
        cross_asset_amount: 0,
    }
}

#[test]
fn removing_collateral_keeps_a_margin() {
    let (mut position, _p, mut sol, mut usdc) = opened_long();
    // 0.2 SOL (30 dollars) leaves 120 dollars on 1500: 800 basis points.
    let r = remove_collateral(&mut position, &mut sol, &mut usdc, &withdrawal(200_000_000), key(1), key(SOL), &withdrawal_quote(30_000_000, 138_000_000), 0, 500, 700);
    assert_eq!(r, Ok(200_000_000));
    assert_eq!((position.collateral_amount, position.collateral_usd, position.liquidation_price), (800_000_000, 120_000_000, 138_000_000));
    assert_eq!(sol.token_owned, 100_800_000_000);
    // 0.6 SOL more would leave 400 basis points, below the 520 required.
    let r = remove_collateral(&mut position, &mut sol, &mut usdc, &withdrawal(600_000_000), key(1), key(SOL), &withdrawal_quote(90_000_000, 145_000_000), 0, 500, 701);
    assert_eq!(r, Err(Error::PerpetualError(PerpetualError::InsufficientMargin)));
    let r = remove_collateral(&mut position, &mut sol, &mut usdc, &withdrawal(100_000_000), key(1), key(SOL), &withdrawal_quote(15_000_000, 150_000_000), 0, 500, 701);
    assert_eq!(r, Err(Error::PerpetualError(PerpetualError::WouldCauseLiquidation)));
    let r = remove_collateral(&mut position, &mut sol, &mut usdc, &withdrawal(800_000_000), key(1), key(SOL), &withdrawal_quote(15_000_000, 140_000_000), 0, 500, 701);
    assert_eq!(r, Err(Error::TradingError(TradingError::InvalidAmount)));
    assert_eq!((position.collateral_amount, position.update_time), (800_000_000, 700));
}

fn resize(is_increase: bool, size_delta_usd: u64, collateral_delta: u64) -> UpdatePositionSizeParams {
    UpdatePositionSizeParams { position_index: 1, is_increase, size_delta_usd, collateral_delta, pay_sol: true, receive_sol: true }
}

#[test]
fn growing_a_position_locks_more() {
    let (mut position, mut p, mut sol, mut usdc) = opened_long();
    let q = SizeIncreaseQuote { collateral_usd_delta: 150_000_000, required_liquidity_delta: 10_000_000_000 };
    let r = update_position_size(&mut position, &mut p, &mut sol, &mut usdc, &resize(true, 1_500_000_000, 1_000_000_000), key(1), key(SOL), key(USDC), 5, &q, 0, 800);
    assert_eq!(r.map(|r| r.locked_delta), Err(Error::TradingError(TradingError::InsufficientBalance)));
    let r = update_position_size(&mut position, &mut p, &mut sol, &mut usdc, &resize(true, 1_500_000_000, 1_000_000_000), key(1), key(SOL), key(USDC), 1_000_000_000, &q, 0, 800);
    assert_eq!(r.map(|r| r.locked_delta), Ok(10_000_000_000));
    assert_eq!((position.size_usd, position.collateral_usd, position.locked_amount), (3_000_000_000, 300_000_000, 20_000_000_000));
    assert_eq!((sol.token_locked, p.long_open_interest_usd), (20_000_000_000, 3_000_000_000));
    let r = update_position_size(&mut position, &mut p, &mut sol, &mut usdc, &resize(false, 0, 0), key(1), key(SOL), key(USDC), 0, &q, 0, 801);
    assert_eq!(r.map(|r| r.locked_delta), Err(Error::TradingError(TradingError::InvalidAmount)));
    // A shrink returns the integer share size_delta / size, which is zero below the whole size.
    let r = update_position_size(&mut position, &mut p, &mut sol, &mut usdc, &resize(false, 1_000_000_000, 0), key(1), key(SOL), key(USDC), 0, &q, 0, 802).unwrap();
    assert_eq!((r.collateral_amount_returned, r.locked_delta, r.settlement_usd), (0, 0, 0));
    assert_eq!((position.size_usd, p.long_open_interest_usd, position.locked_amount), (2_000_000_000, 2_000_000_000, 20_000_000_000));
    let r = update_position_size(&mut position, &mut p, &mut sol, &mut usdc, &resize(false, 2_000_000_000, 0), key(1), key(SOL), key(USDC), 0, &q, 0, 803);
    assert_eq!(r.map(|r| r.locked_delta), Err(Error::TradingError(TradingError::InvalidAmount)));
    let r = update_position_size(&mut position, &mut p, &mut sol, &mut usdc, &resize(false, 1_999_500_000, 0), key(1), key(SOL), key(USDC), 0, &q, 0, 803);
    assert_eq!(r.map(|r| r.locked_delta), Err(Error::TradingError(TradingError::PositionTooSmall)));
}

#[test]
fn a_foreign_book_is_refused_before_the_fee_counters() {
    let (mut position, mut p, mut sol, mut usdc) = opened_long();
    position.borrow_fees_paid = u64::MAX;
    position.accrued_borrow_fees = 1;
    let mut book = Some(book_with_orders());
    let r = liquidate(&mut position, &mut p, &mut sol, &mut usdc, &mut book, Some(false), key(SOL), true, false, -140_000_000, 1, 500);
    assert_eq!(r.map(|r| r.size_usd_closed), Err(Error::TradingError(TradingError::Unauthorized)));
    let all = ClosePerpPositionParams { position_index: 1, contract_type: 0, close_percentage: 100_000_000, receive_sol: true };
    let r = close_perp_position(&mut position, &mut p, &mut sol, &mut usdc, &mut book, Some(false), &all, key(1), key(SOL), &sol_price(), &usdc_price(), 0, 1, 500);
    assert_eq!(r.map(|r| r.size_usd_closed), Err(Error::TradingError(TradingError::Unauthorized)));
    // With the right book the fee counter overflows.
    let r = liquidate(&mut position, &mut p, &mut sol, &mut usdc, &mut book, Some(true), key(SOL), true, false, -140_000_000, 1, 500);
    assert_eq!(r.map(|r| r.size_usd_closed), Err(Error::MathError(option_contract::errors::MathError::MathOverflow)));
    assert_eq!(book.as_ref().map(|b| b.take_profit_orders.len()), Some(1));
}
