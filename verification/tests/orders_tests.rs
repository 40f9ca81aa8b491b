use option_contract::errors::{Error, OptionError, PerpetualError, TradingError};
use option_contract::orders::{
    init_tp_sl_orderbook, manage_tp_sl_orders, set_tp_sl, update_borrow_fees, InitTpSlOrderbookParams,
    ManageTpSlOrdersParams, OrderAction, SetTpSlParams,
};
use option_contract::state::{
    AccountKey, OptionDetail, OrderType, Position, PriceOrder, Side, TpSlOrder, TpSlOrderbook,
};

fn key(n: u128) -> AccountKey {
    AccountKey { hi: 0, lo: n }
}

fn position(side: Side) -> Position {
    Position {
        index: 1,
        owner: key(1),
        pool: key(2),
        custody: key(3),
        collateral_custody: key(4),
        order_type: OrderType::Market,
        side,
        is_liquidated: false,
        price: 100_000_000,
        size_usd: 1_000_000_000,
        borrow_size_usd: 0,
        collateral_usd: 100_000_000,
        open_time: 10,
        update_time: 10,
        execution_time: Some(10),
        last_borrow_fees_update_time: 10,
        liquidation_price: if side == Side::Long { 90_000_000 } else { 110_000_000 },
        cumulative_interest_snapshot: 0,
        trade_fees: 0,
        borrow_fees_paid: 0,
        accrued_borrow_fees: 0,
        locked_amount: 0,
        collateral_amount: 0,
        initial_margin_bps: 0,
        maintenance_margin_bps: 0,
        trigger_price: None,
        trigger_above_threshold: false,
        take_profit_price: None,
        stop_loss_price: None,
        tp_sl_orderbook: None,
        bump: 0,
    }
}

fn option_detail(option_type: u8) -> OptionDetail {
    OptionDetail {
        index: 1,
        owner: key(1),
        amount: 1_000,
        quantity: 10,
        period: 7,
        expired_date: 1_000,
        purchase_date: 0,
        option_type,
        strike_price: 100_000_000,
        valid: true,
        locked_asset: key(3),
        pool: key(2),
        custody: key(3),
        premium: 50,
        premium_asset: key(4),
        bought_back: 0,
        exercised: 0,
        profit: 0,
        claimed: 0,
        executed: false,
        last_update_time: 0,
        take_profit_price: None,
        stop_loss_price: None,
        tp_sl_orderbook: None,
    }
}

fn empty_book() -> TpSlOrderbook {
    TpSlOrderbook {
        owner: AccountKey { hi: 0, lo: 0 },
        position: AccountKey { hi: 0, lo: 0 },
        contract_type: 0,
        take_profit_orders: Vec::new(),
        stop_loss_orders: Vec::new(),
        bump: 0,
    }
}

fn book(contract_type: u8) -> TpSlOrderbook {
    let mut b = empty_book();
    b.initialize(key(1), key(9), contract_type, 7);
    b
}

fn manage(action: OrderAction, contract_type: u8) -> ManageTpSlOrdersParams {
    ManageTpSlOrdersParams { contract_type, position_index: 1, pool_name: String::from("SOL-USDC"), action }
}

#[test]
fn book_operations_keep_order() {
    let mut b = book(0);
    assert_eq!(b.add_take_profit_order(110, 5_000, true), 0);
    assert_eq!(b.add_take_profit_order(120, 5_000, false), 1);
    assert_eq!(b.add_stop_loss_order(95, 10_000, true), 0);
    assert_eq!(b.update_take_profit_order(1, Some(125), None, Some(true)), Ok(()));
    assert_eq!(b.take_profit_orders[1], TpSlOrder { price: 125, size_percent: 5_000, receive_sol: true, is_active: true });
    assert_eq!(b.update_stop_loss_order(3, Some(1), None, None), Err(Error::TradingError(TradingError::InvalidAmount)));
    assert_eq!(b.mark_tp_executed(0), Ok(()));
    assert!(!b.take_profit_orders[0].is_active);
    assert_eq!(b.remove_take_profit_order(0).map(|o| o.price), Ok(110));
    assert_eq!(b.take_profit_orders.len(), 1);
    assert_eq!(b.take_profit_orders[0].price, 125);
    assert_eq!(b.remove_stop_loss_order(1), Err(Error::TradingError(TradingError::InvalidAmount)));
    assert_eq!(b.mark_sl_executed(0), Ok(()));
    b.clear_all_orders();
    assert!(b.take_profit_orders.is_empty() && b.stop_loss_orders.is_empty());
    assert_eq!((b.owner, b.position, b.contract_type, b.bump), (key(1), key(9), 0, 7));
}

#[test]
fn removing_an_added_order_restores_the_book() {
    let mut b = book(0);
    b.add_stop_loss_order(90, 100, false);
    let index = b.add_take_profit_order(130, 2_500, true);
    assert_eq!(b.remove_take_profit_order(index).map(|o| o.price), Ok(130));
    assert!(b.take_profit_orders.is_empty());
    assert_eq!(b.stop_loss_orders.len(), 1);
}

#[test]
fn manage_adds_validated_perp_orders() {
    let mut b = book(0);
    let mut p = Some(position(Side::Long));
    let add_tp = manage(OrderAction::AddTakeProfit { price: 120_000_000, size_percent: 5_000, receive_sol: true }, 0);
    assert_eq!(manage_tp_sl_orders(&mut b, &mut p, &None, key(1), key(9), &add_tp, PriceOrder::Equal, 77), Ok(Some(0)));
    assert_eq!(p.unwrap().update_time, 77);
    assert_eq!(b.take_profit_orders.len(), 1);
    // A take-profit of a long must lie above the entry.
    let low_tp = manage(OrderAction::AddTakeProfit { price: 99_000_000, size_percent: 5_000, receive_sol: true }, 0);
    assert_eq!(
        manage_tp_sl_orders(&mut b, &mut p, &None, key(1), key(9), &low_tp, PriceOrder::Equal, 78),
        Err(Error::TradingError(TradingError::InvalidTakeProfitPrice))
    );
    assert_eq!(p.unwrap().update_time, 77);
    // A stop-loss of a long must lie between the liquidation price and the entry.
    let deep_sl = manage(OrderAction::AddStopLoss { price: 80_000_000, size_percent: 5_000, receive_sol: true }, 0);
    assert_eq!(
        manage_tp_sl_orders(&mut b, &mut p, &None, key(1), key(9), &deep_sl, PriceOrder::Equal, 78),
        Err(Error::TradingError(TradingError::InvalidStopLossPrice))
    );
    let good_sl = manage(OrderAction::AddStopLoss { price: 95_000_000, size_percent: 10_000, receive_sol: false }, 0);
    assert_eq!(manage_tp_sl_orders(&mut b, &mut p, &None, key(1), key(9), &good_sl, PriceOrder::Equal, 79), Ok(Some(0)));
    let remove = manage(OrderAction::RemoveTakeProfit { index: 4 }, 0);
    assert_eq!(
        manage_tp_sl_orders(&mut b, &mut p, &None, key(1), key(9), &remove, PriceOrder::Equal, 80),
        Err(Error::TradingError(TradingError::InvalidAmount))
    );
    let clear = manage(OrderAction::ClearAll, 0);
    assert_eq!(manage_tp_sl_orders(&mut b, &mut p, &None, key(1), key(9), &clear, PriceOrder::Equal, 81), Ok(None));
    assert!(b.take_profit_orders.is_empty() && b.stop_loss_orders.is_empty());
}

#[test]
fn manage_checks_ownership_and_subject() {
    let mut b = book(0);
    let mut p = Some(position(Side::Short));
    let add = manage(OrderAction::AddTakeProfit { price: 90_000_000, size_percent: 1, receive_sol: true }, 0);
    assert_eq!(
        manage_tp_sl_orders(&mut b, &mut p, &None, key(5), key(9), &add, PriceOrder::Equal, 1),
        Err(Error::TradingError(TradingError::Unauthorized))
    );
    let wrong_kind = manage(OrderAction::ClearAll, 1);
    assert_eq!(
        manage_tp_sl_orders(&mut b, &mut p, &None, key(1), key(9), &wrong_kind, PriceOrder::Equal, 1),
        Err(Error::TradingError(TradingError::InvalidOrderType))
    );
    assert_eq!(
        manage_tp_sl_orders(&mut b, &mut p, &None, key(1), key(8), &add, PriceOrder::Equal, 1),
        Err(Error::TradingError(TradingError::InvalidPosition))
    );
    let mut closed = Some(Position { is_liquidated: true, ..position(Side::Short) });
    assert_eq!(
        manage_tp_sl_orders(&mut b, &mut closed, &None, key(1), key(9), &add, PriceOrder::Equal, 1),
        Err(Error::PerpetualError(PerpetualError::PositionLiquidated))
    );
    assert_eq!(manage_tp_sl_orders(&mut b, &mut p, &None, key(1), key(9), &add, PriceOrder::Equal, 1), Ok(Some(0)));
    let mut odd = book(2);
    assert_eq!(
        manage_tp_sl_orders(&mut odd, &mut None, &None, key(1), key(9), &manage(OrderAction::ClearAll, 2), PriceOrder::Equal, 1),
        Err(Error::TradingError(TradingError::InvalidOrderType))
    );
}

#[test]
fn manage_option_orders_follow_the_strike() {
    let mut b = book(1);
    let call = Some(option_detail(0));
    let add_tp = manage(OrderAction::AddTakeProfit { price: 120_000_000, size_percent: 10_000, receive_sol: false }, 1);
    assert_eq!(
        manage_tp_sl_orders(&mut b, &mut None, &call, key(1), key(9), &add_tp, PriceOrder::Below, 5),
        Err(Error::TradingError(TradingError::InvalidTakeProfitPrice))
    );
    assert_eq!(manage_tp_sl_orders(&mut b, &mut None, &call, key(1), key(9), &add_tp, PriceOrder::Above, 5), Ok(Some(0)));
    let put = Some(option_detail(1));
    let add_sl = manage(OrderAction::AddStopLoss { price: 120_000_000, size_percent: 10_000, receive_sol: false }, 1);
    assert_eq!(manage_tp_sl_orders(&mut b, &mut None, &put, key(1), key(9), &add_sl, PriceOrder::Above, 5), Ok(Some(0)));
    let executed = Some(OptionDetail { executed: true, ..option_detail(0) });
    assert_eq!(
        manage_tp_sl_orders(&mut b, &mut None, &executed, key(1), key(9), &add_tp, PriceOrder::Above, 5),
        Err(Error::OptionError(OptionError::OptionExecuted))
    );
    let invalid = Some(OptionDetail { valid: false, ..option_detail(0) });
    assert_eq!(
        manage_tp_sl_orders(&mut b, &mut None, &invalid, key(1), key(9), &add_tp, PriceOrder::Above, 5),
        Err(Error::OptionError(OptionError::InvalidOption))
    );
    let update = manage(
        OrderAction::UpdateTakeProfit { index: 0, new_price: None, new_size_percent: Some(5_000), new_receive_sol: None },
        1,
    );
    assert_eq!(manage_tp_sl_orders(&mut b, &mut None, &call, key(1), key(9), &update, PriceOrder::Equal, 6), Ok(None));
    assert_eq!(b.take_profit_orders[0].size_percent, 5_000);
}

#[test]
fn init_links_the_book_once() {
    let mut b = empty_book();
    let mut p = Some(position(Side::Long));
    let params = InitTpSlOrderbookParams { order_type: 0, position_index: 1, pool_name: String::from("SOL-USDC") };
    assert_eq!(init_tp_sl_orderbook(&mut b, &mut p, &mut None, key(1), key(9), key(20), 3, &params), Ok(()));
    assert_eq!(p.unwrap().tp_sl_orderbook, Some(key(20)));
    assert_eq!((b.owner, b.position, b.contract_type, b.bump), (key(1), key(9), 0, 3));
    assert_eq!(
        init_tp_sl_orderbook(&mut b, &mut p, &mut None, key(1), key(9), key(20), 3, &params),
        Err(Error::TradingError(TradingError::OrderbookAlreadyExists))
    );
    let mut o = Some(option_detail(0));
    let option_params = InitTpSlOrderbookParams { order_type: 1, position_index: 1, pool_name: String::from("SOL-USDC") };
    assert_eq!(
        init_tp_sl_orderbook(&mut b, &mut None, &mut o, key(2), key(9), key(21), 3, &option_params),
        Err(Error::TradingError(TradingError::Unauthorized))
    );
    assert_eq!(init_tp_sl_orderbook(&mut b, &mut None, &mut o, key(1), key(9), key(21), 3, &option_params), Ok(()));
    assert_eq!(o.unwrap().tp_sl_orderbook, Some(key(21)));
    let mut closed = Some(Position { is_liquidated: true, ..position(Side::Long) });
    assert_eq!(
        init_tp_sl_orderbook(&mut b, &mut closed, &mut None, key(1), key(9), key(20), 3, &params),
        Err(Error::TradingError(TradingError::PositionLiquidated))
    );
    let bad = InitTpSlOrderbookParams { order_type: 4, position_index: 1, pool_name: String::new() };
    assert_eq!(
        init_tp_sl_orderbook(&mut b, &mut None, &mut None, key(1), key(9), key(20), 3, &bad),
        Err(Error::TradingError(TradingError::InvalidOrderType))
    );
}

#[test]
fn set_tp_sl_validates_against_entry_and_liquidation() {
    let mut p = position(Side::Short);
    let params = |tp, sl| SetTpSlParams { position_index: 1, pool_name: String::new(), take_profit_price: tp, stop_loss_price: sl };
    assert_eq!(set_tp_sl(&mut p, key(1), &params(Some(90_000_000), Some(105_000_000))), Ok(()));
    assert_eq!((p.take_profit_price, p.stop_loss_price), (Some(90_000_000), Some(105_000_000)));
    assert_eq!(
        set_tp_sl(&mut p, key(1), &params(Some(101_000_000), None)),
        Err(Error::TradingError(TradingError::InvalidTakeProfitPrice))
    );
    assert_eq!(
        set_tp_sl(&mut p, key(1), &params(None, Some(120_000_000))),
        Err(Error::TradingError(TradingError::InvalidStopLossPrice))
    );
    assert_eq!(set_tp_sl(&mut p, key(1), &params(None, None)), Ok(()));
    assert_eq!((p.take_profit_price, p.stop_loss_price), (None, None));
    let mut limit = Position { order_type: OrderType::Limit, ..position(Side::Long) };
    assert_eq!(
        set_tp_sl(&mut limit, key(1), &params(None, None)),
        Err(Error::PerpetualError(PerpetualError::InvalidPositionType))
    );
    assert_eq!(set_tp_sl(&mut limit, key(2), &params(None, None)), Err(Error::TradingError(TradingError::Unauthorized)));
}

#[test]
fn borrow_fee_updates_need_a_live_position() {
    assert_eq!(update_borrow_fees(&position(Side::Long)), Ok(()));
    assert_eq!(
        update_borrow_fees(&Position { is_liquidated: true, ..position(Side::Long) }),
        Err(Error::PerpetualError(PerpetualError::PositionLiquidated))
    );
    assert_eq!(
        update_borrow_fees(&Position { order_type: OrderType::Limit, ..position(Side::Long) }),
        Err(Error::PerpetualError(PerpetualError::InvalidOrderType))
    );
}
