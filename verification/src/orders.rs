//! Take-profit and stop-loss orders: the order books, their upkeep, and the
//! instructions that open a book, manage its orders or set prices directly on a
//! position.
use crate::errors::{Error, OptionError, PerpetualError, TradingError};
use crate::state::{
    AccountKey, OptionDetail, OrderType, Position, PriceOrder, Side, TpSlOrder, TpSlOrderbook,
};
use vstd::prelude::*;

verus! {

/// A live order that fires at `price` and closes `size_percent` basis points.
pub open spec fn live_order(price: u64, size_percent: u64, receive_sol: bool) -> TpSlOrder {
    TpSlOrder { price, size_percent, receive_sol, is_active: true }
}

/// `order` with each field for which a new value is given replaced by it.
pub open spec fn revised_order(
    order: TpSlOrder,
    new_price: Option<u64>,
    new_size_percent: Option<u64>,
    new_receive_sol: Option<bool>,
) -> TpSlOrder {
    TpSlOrder {
        price: match new_price {
            Some(p) => p,
            None => order.price,
        },
        size_percent: match new_size_percent {
            Some(s) => s,
            None => order.size_percent,
        },
        receive_sol: match new_receive_sol {
            Some(b) => b,
            None => order.receive_sol,
        },
        is_active: order.is_active,
    }
}

/// `order`, no longer live.
pub open spec fn spent_order(order: TpSlOrder) -> TpSlOrder {
    TpSlOrder { is_active: false, ..order }
}

/// The error of addressing position `index` of a list of `len` orders.
pub open spec fn index_error(index: int, len: nat) -> Option<Error> {
    if 0 <= index < len {
        None
    } else {
        Some(Error::TradingError(TradingError::InvalidAmount))
    }
}

/// Whether `book` has the owner, subject, kind and bump of `header` and holds the
/// lists `tp` and `sl`.
pub open spec fn holds_orders(
    book: TpSlOrderbook,
    header: TpSlOrderbook,
    tp: Seq<TpSlOrder>,
    sl: Seq<TpSlOrder>,
) -> bool {
    &&& book.owner == header.owner
    &&& book.position == header.position
    &&& book.contract_type == header.contract_type
    &&& book.bump == header.bump
    &&& book.take_profit_orders@ == tp
    &&& book.stop_loss_orders@ == sl
}

fn revise_order_at(
    orders: &mut Vec<TpSlOrder>,
    index: usize,
    new_price: Option<u64>,
    new_size_percent: Option<u64>,
    new_receive_sol: Option<bool>,
) -> (r: Result<(), Error>)
    ensures
        r == match index_error(index as int, old(orders)@.len()) {
            Some(e) => Err(e),
            None => Ok(()),
        },
        r is Ok ==> final(orders)@ == old(orders)@.update(
            index as int,
            revised_order(old(orders)@[index as int], new_price, new_size_percent, new_receive_sol),
        ),
        r is Err ==> final(orders)@ == old(orders)@,
{
    if index >= orders.len() {
        return Err(Error::TradingError(TradingError::InvalidAmount));
    }
    let order = orders[index];
    let revised = TpSlOrder {
        price: match new_price {
            Some(p) => p,
            None => order.price,
        },
        size_percent: match new_size_percent {
            Some(s) => s,
            None => order.size_percent,
        },
        receive_sol: match new_receive_sol {
            Some(b) => b,
            None => order.receive_sol,
        },
        is_active: order.is_active,
    };
    orders.set(index, revised);
    Ok(())
}

fn remove_order_at(orders: &mut Vec<TpSlOrder>, index: usize) -> (r: Result<TpSlOrder, Error>)
    ensures
        r == match index_error(index as int, old(orders)@.len()) {
            Some(e) => Err(e),
            None => Ok(old(orders)@[index as int]),
        },
        r is Ok ==> final(orders)@ == old(orders)@.remove(index as int),
        r is Err ==> final(orders)@ == old(orders)@,
{
    if index >= orders.len() {
        return Err(Error::TradingError(TradingError::InvalidAmount));
    }
    Ok(orders.remove(index))
}

fn spend_order_at(orders: &mut Vec<TpSlOrder>, index: usize) -> (r: Result<(), Error>)
    ensures
        r == match index_error(index as int, old(orders)@.len()) {
            Some(e) => Err(e),
            None => Ok(()),
        },
        r is Ok ==> final(orders)@ == old(orders)@.update(
            index as int,
            spent_order(old(orders)@[index as int]),
        ),
        r is Err ==> final(orders)@ == old(orders)@,
{
    if index >= orders.len() {
        return Err(Error::TradingError(TradingError::InvalidAmount));
    }
    let order = orders[index];
    orders.set(index, TpSlOrder { is_active: false, ..order });
    Ok(())
}

impl TpSlOrderbook {
    /// Opens the book of `position` (a perpetual position for `contract_type` `0`, an
    /// option for `1`) for `owner`, with no orders.
    pub fn initialize(&mut self, owner: AccountKey, position: AccountKey, contract_type: u8, bump: u8)
        ensures
            final(self).owner == owner,
            final(self).position == position,
            final(self).contract_type == contract_type,
            final(self).bump == bump,
            final(self).take_profit_orders@ == Seq::<TpSlOrder>::empty(),
            final(self).stop_loss_orders@ == Seq::<TpSlOrder>::empty(),
    {
        self.owner = owner;
        self.position = position;
        self.contract_type = contract_type;
        self.bump = bump;
        self.take_profit_orders = Vec::new();
        self.stop_loss_orders = Vec::new();
    }

    /// Appends a live take-profit order and returns its index.
    pub fn add_take_profit_order(&mut self, price: u64, size_percent: u64, receive_sol: bool) -> (index: usize)
        ensures
            index == old(self).take_profit_orders@.len(),
            holds_orders(
                *final(self),
                *old(self),
                old(self).take_profit_orders@.push(live_order(price, size_percent, receive_sol)),
                old(self).stop_loss_orders@,
            ),
    {
        let index = self.take_profit_orders.len();
        self.take_profit_orders.push(TpSlOrder { price, size_percent, receive_sol, is_active: true });
        index
    }

    /// Appends a live stop-loss order and returns its index.
    pub fn add_stop_loss_order(&mut self, price: u64, size_percent: u64, receive_sol: bool) -> (index: usize)
        ensures
            index == old(self).stop_loss_orders@.len(),
            holds_orders(
                *final(self),
                *old(self),
                old(self).take_profit_orders@,
                old(self).stop_loss_orders@.push(live_order(price, size_percent, receive_sol)),
            ),
    {
        let index = self.stop_loss_orders.len();
        self.stop_loss_orders.push(TpSlOrder { price, size_percent, receive_sol, is_active: true });
        index
    }

    /// Replaces the given fields of take-profit order `index`.
    pub fn update_take_profit_order(
        &mut self,
        index: usize,
        new_price: Option<u64>,
        new_size_percent: Option<u64>,
        new_receive_sol: Option<bool>,
    ) -> (r: Result<(), Error>)
        ensures
            r == match index_error(index as int, old(self).take_profit_orders@.len()) {
                Some(e) => Err(e),
                None => Ok(()),
            },
            r is Ok ==> holds_orders(
                *final(self),
                *old(self),
                old(self).take_profit_orders@.update(
                    index as int,
                    revised_order(old(self).take_profit_orders@[index as int], new_price, new_size_percent, new_receive_sol),
                ),
                old(self).stop_loss_orders@,
            ),
            r is Err ==> holds_orders(*final(self), *old(self), old(self).take_profit_orders@, old(self).stop_loss_orders@),
    {
        revise_order_at(&mut self.take_profit_orders, index, new_price, new_size_percent, new_receive_sol)
    }

    /// Replaces the given fields of stop-loss order `index`.
    pub fn update_stop_loss_order(
        &mut self,
        index: usize,
        new_price: Option<u64>,
        new_size_percent: Option<u64>,
        new_receive_sol: Option<bool>,
    ) -> (r: Result<(), Error>)
        ensures
            r == match index_error(index as int, old(self).stop_loss_orders@.len()) {
                Some(e) => Err(e),
                None => Ok(()),
            },
            r is Ok ==> holds_orders(
                *final(self),
                *old(self),
                old(self).take_profit_orders@,
                old(self).stop_loss_orders@.update(
                    index as int,
                    revised_order(old(self).stop_loss_orders@[index as int], new_price, new_size_percent, new_receive_sol),
                ),
            ),
            r is Err ==> holds_orders(*final(self), *old(self), old(self).take_profit_orders@, old(self).stop_loss_orders@),
    {
        revise_order_at(&mut self.stop_loss_orders, index, new_price, new_size_percent, new_receive_sol)
    }

    /// Removes take-profit order `index`; the orders after it move up by one.
    pub fn remove_take_profit_order(&mut self, index: usize) -> (r: Result<TpSlOrder, Error>)
        ensures
            r == match index_error(index as int, old(self).take_profit_orders@.len()) {
                Some(e) => Err(e),
                None => Ok(old(self).take_profit_orders@[index as int]),
            },
            r is Ok ==> holds_orders(
                *final(self),
                *old(self),
                old(self).take_profit_orders@.remove(index as int),
                old(self).stop_loss_orders@,
            ),
            r is Err ==> holds_orders(*final(self), *old(self), old(self).take_profit_orders@, old(self).stop_loss_orders@),
    {
        remove_order_at(&mut self.take_profit_orders, index)
    }

    /// Removes stop-loss order `index`; the orders after it move up by one.
    pub fn remove_stop_loss_order(&mut self, index: usize) -> (r: Result<TpSlOrder, Error>)
        ensures
            r == match index_error(index as int, old(self).stop_loss_orders@.len()) {
                Some(e) => Err(e),
                None => Ok(old(self).stop_loss_orders@[index as int]),
            },
            r is Ok ==> holds_orders(
                *final(self),
                *old(self),
                old(self).take_profit_orders@,
                old(self).stop_loss_orders@.remove(index as int),
            ),
            r is Err ==> holds_orders(*final(self), *old(self), old(self).take_profit_orders@, old(self).stop_loss_orders@),
    {
        remove_order_at(&mut self.stop_loss_orders, index)
    }

    /// Marks take-profit order `index` as executed: it stays in the book, no longer live.
    pub fn mark_tp_executed(&mut self, index: usize) -> (r: Result<(), Error>)
        ensures
            r == match index_error(index as int, old(self).take_profit_orders@.len()) {
                Some(e) => Err(e),
                None => Ok(()),
            },
            r is Ok ==> holds_orders(
                *final(self),
                *old(self),
                old(self).take_profit_orders@.update(index as int, spent_order(old(self).take_profit_orders@[index as int])),
                old(self).stop_loss_orders@,
            ),
            r is Err ==> holds_orders(*final(self), *old(self), old(self).take_profit_orders@, old(self).stop_loss_orders@),
    {
        spend_order_at(&mut self.take_profit_orders, index)
    }

    /// Marks stop-loss order `index` as executed: it stays in the book, no longer live.
    pub fn mark_sl_executed(&mut self, index: usize) -> (r: Result<(), Error>)
        ensures
            r == match index_error(index as int, old(self).stop_loss_orders@.len()) {
                Some(e) => Err(e),
                None => Ok(()),
            },
            r is Ok ==> holds_orders(
                *final(self),
                *old(self),
                old(self).take_profit_orders@,
                old(self).stop_loss_orders@.update(index as int, spent_order(old(self).stop_loss_orders@[index as int])),
            ),
            r is Err ==> holds_orders(*final(self), *old(self), old(self).take_profit_orders@, old(self).stop_loss_orders@),
    {
        spend_order_at(&mut self.stop_loss_orders, index)
    }

    /// Removes every order of the book.
    pub fn clear_all_orders(&mut self)
        ensures
            holds_orders(*final(self), *old(self), Seq::<TpSlOrder>::empty(), Seq::<TpSlOrder>::empty()),
    {
        self.take_profit_orders.clear();
        self.stop_loss_orders.clear();
    }
}

/// What a call of [`manage_tp_sl_orders`] does to the book.
#[derive(Debug, Clone, Copy, PartialEq, Eq, Structural)]
pub enum OrderAction {
    AddTakeProfit { price: u64, size_percent: u64, receive_sol: bool },
    AddStopLoss { price: u64, size_percent: u64, receive_sol: bool },
    UpdateTakeProfit {
        index: u8,
        new_price: Option<u64>,
        new_size_percent: Option<u64>,
        new_receive_sol: Option<bool>,
    },
    UpdateStopLoss {
        index: u8,
        new_price: Option<u64>,
        new_size_percent: Option<u64>,
        new_receive_sol: Option<bool>,
    },
    RemoveTakeProfit { index: u8 },
    RemoveStopLoss { index: u8 },
    ClearAll,
}

/// Parameters of [`manage_tp_sl_orders`]. `contract_type` is `0` for a perpetual
/// position, `1` for an option.
#[derive(Debug, Clone)]
pub struct ManageTpSlOrdersParams {
    pub contract_type: u8,
    pub position_index: u64,
    pub pool_name: String,
    pub action: OrderAction,
}

/// The price that `action` gives a take-profit order, where it gives one.
pub open spec fn take_profit_price_of(action: OrderAction) -> Option<u64> {
    match action {
        OrderAction::AddTakeProfit { price, .. } => Some(price),
        OrderAction::UpdateTakeProfit { new_price, .. } => new_price,
        _ => None,
    }
}

/// The price that `action` gives a stop-loss order, where it gives one.
pub open spec fn stop_loss_price_of(action: OrderAction) -> Option<u64> {
    match action {
        OrderAction::AddStopLoss { price, .. } => Some(price),
        OrderAction::UpdateStopLoss { new_price, .. } => new_price,
        _ => None,
    }
}

/// Whether a take-profit price suits a perpetual position: above the entry for a
/// long, below it for a short.
pub open spec fn perp_take_profit_ok(p: Position, price: u64) -> bool {
    match p.side {
        Side::Long => price > p.price,
        Side::Short => price < p.price,
    }
}

/// Whether a stop-loss price suits a perpetual position: between the liquidation
/// price and the entry.
pub open spec fn perp_stop_loss_ok(p: Position, price: u64) -> bool {
    match p.side {
        Side::Long => price < p.price && price > p.liquidation_price,
        Side::Short => price > p.price && price < p.liquidation_price,
    }
}

/// The error of the price that `action` sets on an order of perpetual position `p`.
pub open spec fn perp_order_price_error(p: Position, action: OrderAction) -> Option<Error> {
    match take_profit_price_of(action) {
        Some(price) => if perp_take_profit_ok(p, price) {
            None
        } else {
            Some(Error::TradingError(TradingError::InvalidTakeProfitPrice))
        },
        None => match stop_loss_price_of(action) {
            Some(price) => if perp_stop_loss_ok(p, price) {
                None
            } else {
                Some(Error::TradingError(TradingError::InvalidStopLossPrice))
            },
            None => None,
        },
    }
}

/// Whether a take-profit price that compares with the strike as `vs_strike` suits
/// an option: above the strike for a call (`option_type` `0`), below it for a put.
pub open spec fn option_take_profit_ok(option_type: u8, vs_strike: PriceOrder) -> bool {
    if option_type == 0 {
        vs_strike == PriceOrder::Above
    } else {
        vs_strike == PriceOrder::Below
    }
}

/// Whether a stop-loss price that compares with the strike as `vs_strike` suits an
/// option: below the strike for a call, above it for a put.
pub open spec fn option_stop_loss_ok(option_type: u8, vs_strike: PriceOrder) -> bool {
    if option_type == 0 {
        vs_strike == PriceOrder::Below
    } else {
        vs_strike == PriceOrder::Above
    }
}

/// The error of the price that `action` sets on an order of an option, where that
/// price compares with the strike as `vs_strike`.
pub open spec fn option_order_price_error(option_type: u8, action: OrderAction, vs_strike: PriceOrder) -> Option<Error> {
    if take_profit_price_of(action) is Some {
        if option_take_profit_ok(option_type, vs_strike) {
            None
        } else {
            Some(Error::TradingError(TradingError::InvalidTakeProfitPrice))
        }
    } else if stop_loss_price_of(action) is Some {
        if option_stop_loss_ok(option_type, vs_strike) {
            None
        } else {
            Some(Error::TradingError(TradingError::InvalidStopLossPrice))
        }
    } else {
        None
    }
}

/// The error of addressing the order that `action` names in lists `tp` and `sl`.
pub open spec fn action_error(tp: Seq<TpSlOrder>, sl: Seq<TpSlOrder>, action: OrderAction) -> Option<Error> {
    match action {
        OrderAction::UpdateTakeProfit { index, .. } => index_error(index as int, tp.len()),
        OrderAction::RemoveTakeProfit { index } => index_error(index as int, tp.len()),
        OrderAction::UpdateStopLoss { index, .. } => index_error(index as int, sl.len()),
        OrderAction::RemoveStopLoss { index } => index_error(index as int, sl.len()),
        _ => None,
    }
}

/// The take-profit and stop-loss lists after `action`.
pub open spec fn orders_after(
    tp: Seq<TpSlOrder>,
    sl: Seq<TpSlOrder>,
    action: OrderAction,
) -> (Seq<TpSlOrder>, Seq<TpSlOrder>) {
    match action {
        OrderAction::AddTakeProfit { price, size_percent, receive_sol } => (
            tp.push(live_order(price, size_percent, receive_sol)),
            sl,
        ),
        OrderAction::AddStopLoss { price, size_percent, receive_sol } => (
            tp,
            sl.push(live_order(price, size_percent, receive_sol)),
        ),
        OrderAction::UpdateTakeProfit { index, new_price, new_size_percent, new_receive_sol } => (
            tp.update(index as int, revised_order(tp[index as int], new_price, new_size_percent, new_receive_sol)),
            sl,
        ),
        OrderAction::UpdateStopLoss { index, new_price, new_size_percent, new_receive_sol } => (
            tp,
            sl.update(index as int, revised_order(sl[index as int], new_price, new_size_percent, new_receive_sol)),
        ),
        OrderAction::RemoveTakeProfit { index } => (tp.remove(index as int), sl),
        OrderAction::RemoveStopLoss { index } => (tp, sl.remove(index as int)),
        OrderAction::ClearAll => (Seq::empty(), Seq::empty()),
    }
}

/// The index that an added order gets: the length of its list before.
pub open spec fn added_index(tp: Seq<TpSlOrder>, sl: Seq<TpSlOrder>, action: OrderAction) -> Option<usize> {
    match action {
        OrderAction::AddTakeProfit { .. } => Some(tp.len() as usize),
        OrderAction::AddStopLoss { .. } => Some(sl.len() as usize),
        _ => None,
    }
}

/// The error of managing the orders of `book` as `owner`: the book must be the
/// owner's and of the kind named; its subject (the perpetual position or the option)
/// must be the owner's, open, and the one the book belongs to (`subject_key`); the
/// price that the action sets must suit the subject; the order that it names must
/// exist. `vs_strike` is how that price compares with an option's strike.
pub open spec fn manage_tp_sl_error(
    book: TpSlOrderbook,
    owner: AccountKey,
    contract_type: u8,
    action: OrderAction,
    position: Option<Position>,
    option: Option<OptionDetail>,
    subject_key: AccountKey,
    vs_strike: PriceOrder,
) -> Option<Error> {
    if book.owner != owner {
        Some(Error::TradingError(TradingError::Unauthorized))
    } else if book.contract_type != contract_type {
        Some(Error::TradingError(TradingError::InvalidOrderType))
    } else if contract_type == 0 {
        let p = position.unwrap();
        if p.owner != owner {
            Some(Error::TradingError(TradingError::Unauthorized))
        } else if p.is_liquidated {
            Some(Error::PerpetualError(PerpetualError::PositionLiquidated))
        } else if book.position != subject_key {
            Some(Error::TradingError(TradingError::InvalidPosition))
        } else if perp_order_price_error(p, action) is Some {
            perp_order_price_error(p, action)
        } else {
            action_error(book.take_profit_orders@, book.stop_loss_orders@, action)
        }
    } else if contract_type == 1 {
        let o = option.unwrap();
        if o.owner != owner {
            Some(Error::TradingError(TradingError::Unauthorized))
        } else if !o.valid {
            Some(Error::OptionError(OptionError::InvalidOption))
        } else if o.executed {
            Some(Error::OptionError(OptionError::OptionExecuted))
        } else if book.position != subject_key {
            Some(Error::TradingError(TradingError::InvalidPosition))
        } else if option_order_price_error(o.option_type, action, vs_strike) is Some {
            option_order_price_error(o.option_type, action, vs_strike)
        } else {
            action_error(book.take_profit_orders@, book.stop_loss_orders@, action)
        }
    } else {
        Some(Error::TradingError(TradingError::InvalidOrderType))
    }
}

fn check_perp_order_price(p: &Position, action: OrderAction) -> (r: Option<Error>)
    ensures
        r == perp_order_price_error(*p, action),
{
    let tp = match action {
        OrderAction::AddTakeProfit { price, .. } => Some(price),
        OrderAction::UpdateTakeProfit { new_price, .. } => new_price,
        _ => None,
    };
    let sl = match action {
        OrderAction::AddStopLoss { price, .. } => Some(price),
        OrderAction::UpdateStopLoss { new_price, .. } => new_price,
        _ => None,
    };
    match tp {
        Some(price) => {
            let ok = match p.side {
                Side::Long => price > p.price,
                Side::Short => price < p.price,
            };
            if ok {
                None
            } else {
                Some(Error::TradingError(TradingError::InvalidTakeProfitPrice))
            }
        },
        None => match sl {
            Some(price) => {
                let ok = match p.side {
                    Side::Long => price < p.price && price > p.liquidation_price,
                    Side::Short => price > p.price && price < p.liquidation_price,
                };
                if ok {
                    None
                } else {
                    Some(Error::TradingError(TradingError::InvalidStopLossPrice))
                }
            },
            None => None,
        },
    }
}

fn check_option_order_price(option_type: u8, action: OrderAction, vs_strike: PriceOrder) -> (r: Option<Error>)
    ensures
        r == option_order_price_error(option_type, action, vs_strike),
{
    let sets_tp = match action {
        OrderAction::AddTakeProfit { .. } => true,
        OrderAction::UpdateTakeProfit { new_price, .. } => new_price.is_some(),
        _ => false,
    };
    let sets_sl = match action {
        OrderAction::AddStopLoss { .. } => true,
        OrderAction::UpdateStopLoss { new_price, .. } => new_price.is_some(),
        _ => false,
    };
    let call = option_type == 0;
    if sets_tp {
        let ok = if call {
            vs_strike == PriceOrder::Above
        } else {
            vs_strike == PriceOrder::Below
        };
        if ok {
            None
        } else {
            Some(Error::TradingError(TradingError::InvalidTakeProfitPrice))
        }
    } else if sets_sl {
        let ok = if call {
            vs_strike == PriceOrder::Below
        } else {
            vs_strike == PriceOrder::Above
        };
        if ok {
            None
        } else {
            Some(Error::TradingError(TradingError::InvalidStopLossPrice))
        }
    } else {
        None
    }
}

/// Adds, changes or removes a take-profit or stop-loss order of a perpetual position
/// (`contract_type` `0`, with the position in `position`) or of an option (`1`, with
/// the option in `option`), as `owner`. `subject_key` is the address of that position
/// or option; `price_vs_strike` is how the price that the action sets, read in
/// dollars, compares with the option's strike (it matters for options only).
///
/// Returns the index of an added order. For a perpetual position the caller brings
/// its borrow fees up to date first, and a successful call stamps the position with
/// `current_time`. On an error nothing changes.
pub fn manage_tp_sl_orders(
    orderbook: &mut TpSlOrderbook,
    position: &mut Option<Position>,
    option: &Option<OptionDetail>,
    owner: AccountKey,
    subject_key: AccountKey,
    params: &ManageTpSlOrdersParams,
    price_vs_strike: PriceOrder,
    current_time: i64,
) -> (r: Result<Option<usize>, Error>)
    requires
        old(orderbook).owner == owner && old(orderbook).contract_type == params.contract_type ==> {
            &&& params.contract_type == 0 ==> old(position).is_some()
            &&& params.contract_type == 1 ==> option.is_some()
        },
    ensures
        ({
            let book = *old(orderbook);
            match manage_tp_sl_error(
                book,
                owner,
                params.contract_type,
                params.action,
                *old(position),
                *option,
                subject_key,
                price_vs_strike,
            ) {
                Some(e) => {
                    &&& r == Err::<Option<usize>, Error>(e)
                    &&& holds_orders(*final(orderbook), book, book.take_profit_orders@, book.stop_loss_orders@)
                    &&& *final(position) == *old(position)
                },
                None => {
                    let after = orders_after(book.take_profit_orders@, book.stop_loss_orders@, params.action);
                    &&& r == Ok::<Option<usize>, Error>(
                        added_index(book.take_profit_orders@, book.stop_loss_orders@, params.action),
                    )
                    &&& holds_orders(*final(orderbook), book, after.0, after.1)
                    &&& *final(position) == if params.contract_type == 0 {
                        Some(Position { update_time: current_time, ..old(position).unwrap() })
                    } else {
                        *old(position)
                    }
                },
            }
        }),
{
    if orderbook.owner != owner {
        return Err(Error::TradingError(TradingError::Unauthorized));
    }
    if orderbook.contract_type != params.contract_type {
        return Err(Error::TradingError(TradingError::InvalidOrderType));
    }
    let action = params.action;
    if params.contract_type == 0 {
        let p = position.unwrap();
        if p.owner != owner {
            return Err(Error::TradingError(TradingError::Unauthorized));
        }
        if p.is_liquidated {
            return Err(Error::PerpetualError(PerpetualError::PositionLiquidated));
        }
        if orderbook.position != subject_key {
            return Err(Error::TradingError(TradingError::InvalidPosition));
        }
        if let Some(e) = check_perp_order_price(&p, action) {
            return Err(e);
        }
    } else if params.contract_type == 1 {
        let o = option.unwrap();
        if o.owner != owner {
            return Err(Error::TradingError(TradingError::Unauthorized));
        }
        if !o.valid {
            return Err(Error::OptionError(OptionError::InvalidOption));
        }
        if o.executed {
            return Err(Error::OptionError(OptionError::OptionExecuted));
        }
        if orderbook.position != subject_key {
            return Err(Error::TradingError(TradingError::InvalidPosition));
        }
        if let Some(e) = check_option_order_price(o.option_type, action, price_vs_strike) {
            return Err(e);
        }
    } else {
        return Err(Error::TradingError(TradingError::InvalidOrderType));
    }
    let added = match action {
        OrderAction::AddTakeProfit { price, size_percent, receive_sol } => {
            Some(orderbook.add_take_profit_order(price, size_percent, receive_sol))
        },
        OrderAction::AddStopLoss { price, size_percent, receive_sol } => {
            Some(orderbook.add_stop_loss_order(price, size_percent, receive_sol))
        },
        OrderAction::UpdateTakeProfit { index, new_price, new_size_percent, new_receive_sol } => {
            orderbook.update_take_profit_order(index as usize, new_price, new_size_percent, new_receive_sol)?;
            None
        },
        OrderAction::UpdateStopLoss { index, new_price, new_size_percent, new_receive_sol } => {
            orderbook.update_stop_loss_order(index as usize, new_price, new_size_percent, new_receive_sol)?;
            None
        },
        OrderAction::RemoveTakeProfit { index } => {
            orderbook.remove_take_profit_order(index as usize)?;
            None
        },
        OrderAction::RemoveStopLoss { index } => {
            orderbook.remove_stop_loss_order(index as usize)?;
            None
        },
        OrderAction::ClearAll => {
            orderbook.clear_all_orders();
            None
        },
    };
    if params.contract_type == 0 {
        let mut p = position.unwrap();
        p.update_time = current_time;
        *position = Some(p);
    }
    Ok(added)
}

/// Parameters of [`init_tp_sl_orderbook`]. `order_type` is `0` for a perpetual
/// position, `1` for an option.
#[derive(Debug, Clone)]
pub struct InitTpSlOrderbookParams {
    pub order_type: u8,
    pub position_index: u64,
    pub pool_name: String,
}

/// The error of opening an order book for the subject named by `order_type`.
pub open spec fn init_tp_sl_error(
    order_type: u8,
    owner: AccountKey,
    position: Option<Position>,
    option: Option<OptionDetail>,
) -> Option<Error> {
    if order_type == 0 {
        let p = position.unwrap();
        if p.owner != owner {
            Some(Error::TradingError(TradingError::Unauthorized))
        } else if p.is_liquidated {
            Some(Error::TradingError(TradingError::PositionLiquidated))
        } else if p.tp_sl_orderbook is Some {
            Some(Error::TradingError(TradingError::OrderbookAlreadyExists))
        } else {
            None
        }
    } else if order_type == 1 {
        let o = option.unwrap();
        if o.owner != owner {
            Some(Error::TradingError(TradingError::Unauthorized))
        } else if !o.valid {
            Some(Error::TradingError(TradingError::InvalidOption))
        } else if o.tp_sl_orderbook is Some {
            Some(Error::TradingError(TradingError::OrderbookAlreadyExists))
        } else {
            None
        }
    } else {
        Some(Error::TradingError(TradingError::InvalidOrderType))
    }
}

/// Opens the take-profit and stop-loss order book at `orderbook_key` for the
/// perpetual position (`order_type` `0`, in `position`) or the option (`1`, in
/// `option`) at `subject_key`, and links the subject to it. The subject must be
/// `owner`'s, open, and without a book. On an error nothing changes.
pub fn init_tp_sl_orderbook(
    orderbook: &mut TpSlOrderbook,
    position: &mut Option<Position>,
    option: &mut Option<OptionDetail>,
    owner: AccountKey,
    subject_key: AccountKey,
    orderbook_key: AccountKey,
    bump: u8,
    params: &InitTpSlOrderbookParams,
) -> (r: Result<(), Error>)
    requires
        params.order_type == 0 ==> old(position).is_some(),
        params.order_type == 1 ==> old(option).is_some(),
    ensures
        match init_tp_sl_error(params.order_type, owner, *old(position), *old(option)) {
            Some(e) => {
                &&& r == Err::<(), Error>(e)
                &&& holds_orders(
                    *final(orderbook),
                    *old(orderbook),
                    old(orderbook).take_profit_orders@,
                    old(orderbook).stop_loss_orders@,
                )
                &&& *final(position) == *old(position)
                &&& *final(option) == *old(option)
            },
            None => {
                &&& r == Ok::<(), Error>(())
                &&& final(orderbook).owner == owner
                &&& final(orderbook).position == subject_key
                &&& final(orderbook).contract_type == params.order_type
                &&& final(orderbook).bump == bump
                &&& final(orderbook).take_profit_orders@ == Seq::<TpSlOrder>::empty()
                &&& final(orderbook).stop_loss_orders@ == Seq::<TpSlOrder>::empty()
                &&& *final(position) == if params.order_type == 0 {
                    Some(Position { tp_sl_orderbook: Some(orderbook_key), ..old(position).unwrap() })
                } else {
                    *old(position)
                }
                &&& *final(option) == if params.order_type == 1 {
                    Some(OptionDetail { tp_sl_orderbook: Some(orderbook_key), ..old(option).unwrap() })
                } else {
                    *old(option)
                }
            },
        },
{
    if params.order_type == 0 {
        let mut p = position.unwrap();
        if p.owner != owner {
            return Err(Error::TradingError(TradingError::Unauthorized));
        }
        if p.is_liquidated {
            return Err(Error::TradingError(TradingError::PositionLiquidated));
        }
        if p.tp_sl_orderbook.is_some() {
            return Err(Error::TradingError(TradingError::OrderbookAlreadyExists));
        }
        orderbook.initialize(owner, subject_key, params.order_type, bump);
        p.tp_sl_orderbook = Some(orderbook_key);
        *position = Some(p);
    } else if params.order_type == 1 {
        let mut o = option.unwrap();
        if o.owner != owner {
            return Err(Error::TradingError(TradingError::Unauthorized));
        }
        if !o.valid {
            return Err(Error::TradingError(TradingError::InvalidOption));
        }
        if o.tp_sl_orderbook.is_some() {
            return Err(Error::TradingError(TradingError::OrderbookAlreadyExists));
        }
        orderbook.initialize(owner, subject_key, params.order_type, bump);
        o.tp_sl_orderbook = Some(orderbook_key);
        *option = Some(o);
    } else {
        return Err(Error::TradingError(TradingError::InvalidOrderType));
    }
    Ok(())
}

/// Parameters of [`set_tp_sl`]: prices with six decimals; `None` clears a price.
#[derive(Debug, Clone)]
pub struct SetTpSlParams {
    pub position_index: u64,
    pub pool_name: String,
    pub take_profit_price: Option<u64>,
    pub stop_loss_price: Option<u64>,
}

/// The error of setting take-profit price `tp` and stop-loss price `sl` on `p` as
/// `owner`: the position must be the owner's, open and live (not a limit order
/// waiting); a take-profit lies beyond the entry in the position's favour, a
/// stop-loss between the entry and the liquidation price.
pub open spec fn set_tp_sl_error(p: Position, owner: AccountKey, tp: Option<u64>, sl: Option<u64>) -> Option<Error> {
    if p.owner != owner {
        Some(Error::TradingError(TradingError::Unauthorized))
    } else if p.is_liquidated {
        Some(Error::PerpetualError(PerpetualError::PositionLiquidated))
    } else if p.order_type != OrderType::Market {
        Some(Error::PerpetualError(PerpetualError::InvalidPositionType))
    } else if tp matches Some(price) && !perp_take_profit_ok(p, price) {
        Some(Error::TradingError(TradingError::InvalidTakeProfitPrice))
    } else if sl matches Some(price) && !perp_stop_loss_ok(p, price) {
        Some(Error::TradingError(TradingError::InvalidStopLossPrice))
    } else {
        None
    }
}

/// Sets (or clears) the take-profit and stop-loss prices of a perpetual position as
/// `owner`. On an error nothing changes.
pub fn set_tp_sl(position: &mut Position, owner: AccountKey, params: &SetTpSlParams) -> (r: Result<(), Error>)
    ensures
        match set_tp_sl_error(*old(position), owner, params.take_profit_price, params.stop_loss_price) {
            Some(e) => r == Err::<(), Error>(e) && *final(position) == *old(position),
            None => {
                &&& r == Ok::<(), Error>(())
                &&& *final(position) == (Position {
                    take_profit_price: params.take_profit_price,
                    stop_loss_price: params.stop_loss_price,
                    ..*old(position)
                })
            },
        },
{
    if position.owner != owner {
        return Err(Error::TradingError(TradingError::Unauthorized));
    }
    if position.is_liquidated {
        return Err(Error::PerpetualError(PerpetualError::PositionLiquidated));
    }
    if position.order_type != OrderType::Market {
        return Err(Error::PerpetualError(PerpetualError::InvalidPositionType));
    }
    let long = position.side == Side::Long;
    if let Some(tp) = params.take_profit_price {
        let ok = if long {
            tp > position.price
        } else {
            tp < position.price
        };
        if !ok {
            return Err(Error::TradingError(TradingError::InvalidTakeProfitPrice));
        }
    }
    if let Some(sl) = params.stop_loss_price {
        let beside_entry = if long {
            sl < position.price
        } else {
            sl > position.price
        };
        if !beside_entry {
            return Err(Error::TradingError(TradingError::InvalidStopLossPrice));
        }
    }
    if let Some(sl) = params.stop_loss_price {
        let before_liquidation = if long {
            sl > position.liquidation_price
        } else {
            sl < position.liquidation_price
        };
        if !before_liquidation {
            return Err(Error::TradingError(TradingError::InvalidStopLossPrice));
        }
    }
    position.take_profit_price = params.take_profit_price;
    position.stop_loss_price = params.stop_loss_price;
    Ok(())
}

/// The error of bringing the borrow fees of `p` up to date: it must be open and live.
pub open spec fn borrow_fee_update_error(p: Position) -> Option<Error> {
    if p.is_liquidated {
        Some(Error::PerpetualError(PerpetualError::PositionLiquidated))
    } else if p.order_type != OrderType::Market {
        Some(Error::PerpetualError(PerpetualError::InvalidOrderType))
    } else {
        None
    }
}

/// Checks that the borrow fees of `position` may be brought up to date.
pub fn update_borrow_fees(position: &Position) -> (r: Result<(), Error>)
    ensures
        r == match borrow_fee_update_error(*position) {
            Some(e) => Err(e),
            None => Ok(()),
        },
{
    if position.is_liquidated {
        return Err(Error::PerpetualError(PerpetualError::PositionLiquidated));
    }
    if position.order_type != OrderType::Market {
        return Err(Error::PerpetualError(PerpetualError::InvalidOrderType));
    }
    Ok(())
}

/// Whether `after` holds the book of `before` with both lists emptied where `clear`,
/// or with its lists unchanged otherwise; no book stays no book.
pub open spec fn book_cleared_if(before: Option<TpSlOrderbook>, after: Option<TpSlOrderbook>, clear: bool) -> bool {
    match before {
        None => after is None,
        Some(b) => after is Some && if clear {
            holds_orders(after->0, b, Seq::<TpSlOrder>::empty(), Seq::<TpSlOrder>::empty())
        } else {
            holds_orders(after->0, b, b.take_profit_orders@, b.stop_loss_orders@)
        },
    }
}

/// Removes every order of the book, where there is one and `clear` holds.
pub fn clear_book_if(book: &mut Option<TpSlOrderbook>, clear: bool)
    ensures
        book_cleared_if(*old(book), *final(book), clear),
{
    if clear {
        if let Some(mut b) = book.take() {
            b.clear_all_orders();
            *book = Some(b);
        }
    }
}

/// Whether an order-book account was given whose address is not the position's
/// book (`book_key_matches` is `None` where none was given).
pub open spec fn wrong_book(book_key_matches: Option<bool>) -> bool {
    book_key_matches == Some(false)
}

} // verus!
