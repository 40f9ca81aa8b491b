//! The accounts of the contract, as the plain values that its logic reads and writes.
use vstd::prelude::*;

verus! {

/// The address of an account: its 32 bytes as two 128-bit words.
#[derive(Debug, Clone, Copy, PartialEq, Eq, Structural)]
pub struct AccountKey {
    pub hi: u128,
    pub lo: u128,
}

/// Direction of a perpetual position or a future.
#[derive(Debug, Clone, Copy, PartialEq, Eq, Structural)]
pub enum Side {
    Long,
    Short,
}

/// Whether a perpetual position is live (market) or waits for its trigger price (limit).
#[derive(Debug, Clone, Copy, PartialEq, Eq, Structural)]
pub enum OrderType {
    Market,
    Limit,
}

/// Life cycle of a dated future.
#[derive(Debug, Clone, Copy, PartialEq, Eq, Structural)]
pub enum FutureStatus {
    Pending,
    Active,
    Expired,
    Settled,
    Liquidated,
}

/// A price reported by an oracle: `price * 10^exponent` US dollars.
#[derive(Debug, Clone, Copy, PartialEq, Eq, Structural)]
pub struct OraclePrice {
    pub price: u64,
    pub exponent: i32,
}

/// The pool's holding of one token.
#[derive(Debug, Clone, Copy, PartialEq, Eq, Structural)]
pub struct Custody {
    /// Tokens that the pool owns.
    pub token_owned: u64,
    /// Tokens of `token_owned` that back open positions.
    pub token_locked: u64,
    /// Decimals of the token's mint.
    pub decimals: u8,
    /// The pool that the custody belongs to.
    pub pool: AccountKey,
    /// The token's mint.
    pub mint: AccountKey,
    /// The token account that holds the custody's tokens.
    pub token_account: AccountKey,
    /// The oracle that prices the token.
    pub oracle: AccountKey,
    pub bump: u8,
    pub token_account_bump: u8,
}

/// Whether two custodies differ at most in the tokens they own and lock.
pub open spec fn same_custody_setup(a: Custody, b: Custody) -> bool {
    &&& a.decimals == b.decimals
    &&& a.pool == b.pool
    &&& a.mint == b.mint
    &&& a.token_account == b.token_account
    &&& a.oracle == b.oracle
    &&& a.bump == b.bump
    &&& a.token_account_bump == b.token_account_bump
}

/// Open interest and borrow-rate accumulators of a pool.
#[derive(Debug, Clone, Copy, PartialEq, Eq, Structural)]
pub struct Pool {
    pub long_open_interest_usd: u128,
    pub short_open_interest_usd: u128,
    pub cumulative_interest_rate_long: u128,
    pub cumulative_interest_rate_short: u128,
    pub bump: u8,
    pub lp_token_bump: u8,
}

/// A trader's counters.
#[derive(Debug, Clone, Copy, PartialEq, Eq, Structural)]
pub struct User {
    pub option_index: u64,
    pub perp_position_count: u64,
    pub future_index: u64,
}

/// A perpetual position. Amounts in US dollars carry six decimals.
#[derive(Debug, Clone, Copy, PartialEq, Eq, Structural)]
pub struct Position {
    pub index: u64,
    pub owner: AccountKey,
    pub pool: AccountKey,
    pub custody: AccountKey,
    pub collateral_custody: AccountKey,
    pub order_type: OrderType,
    pub side: Side,
    pub is_liquidated: bool,
    pub price: u64,
    pub size_usd: u64,
    pub borrow_size_usd: u64,
    pub collateral_usd: u64,
    pub open_time: i64,
    pub update_time: i64,
    pub execution_time: Option<i64>,
    pub last_borrow_fees_update_time: i64,
    pub liquidation_price: u64,
    pub cumulative_interest_snapshot: u128,
    pub trade_fees: u64,
    pub borrow_fees_paid: u64,
    pub accrued_borrow_fees: u64,
    pub locked_amount: u64,
    pub collateral_amount: u64,
    pub initial_margin_bps: u64,
    pub maintenance_margin_bps: u64,
    pub trigger_price: Option<u64>,
    pub trigger_above_threshold: bool,
    /// Take-profit price set directly on the position.
    pub take_profit_price: Option<u64>,
    /// Stop-loss price set directly on the position.
    pub stop_loss_price: Option<u64>,
    /// The position's take-profit and stop-loss order book, once one is opened.
    pub tp_sl_orderbook: Option<AccountKey>,
    pub bump: u8,
}

/// A dated future. Amounts in US dollars carry six decimals.
#[derive(Debug, Clone, Copy, PartialEq, Eq, Structural)]
pub struct Future {
    pub index: u64,
    pub owner: AccountKey,
    pub pool: AccountKey,
    pub custody: AccountKey,
    pub collateral_custody: AccountKey,
    pub side: Side,
    pub status: FutureStatus,
    pub entry_price: u64,
    pub future_price: u64,
    pub size_usd: u64,
    pub collateral_usd: u64,
    pub collateral_amount: u64,
    pub open_time: i64,
    pub expiry_time: i64,
    pub update_time: i64,
    pub execution_time: Option<i64>,
    pub settlement_time: Option<i64>,
    pub fixed_interest_rate_bps: u64,
    pub time_to_expiry_at_open: i64,
    pub liquidation_price: u64,
    pub maintenance_margin_bps: u64,
    pub settlement_price: Option<u64>,
    pub pnl_at_settlement: Option<i64>,
    pub settlement_amount: Option<u64>,
    pub opening_fee: u64,
    pub settlement_fee: u64,
    pub locked_amount: u64,
    pub trigger_price: Option<u64>,
    pub trigger_above_threshold: bool,
    pub max_slippage: u64,
    pub bump: u8,
}

/// An option bought from the pool. `option_type` is `0` for a call, `1` for a put.
#[derive(Debug, Clone, Copy, PartialEq, Eq, Structural)]
pub struct OptionDetail {
    pub index: u64,
    pub owner: AccountKey,
    pub amount: u64,
    pub quantity: u64,
    pub period: u64,
    pub expired_date: i64,
    pub purchase_date: u64,
    pub option_type: u8,
    pub strike_price: u64,
    pub valid: bool,
    pub locked_asset: AccountKey,
    pub pool: AccountKey,
    pub custody: AccountKey,
    pub premium: u64,
    pub premium_asset: AccountKey,
    pub bought_back: u64,
    pub exercised: u64,
    pub profit: u64,
    pub claimed: u64,
    pub executed: bool,
    pub last_update_time: i64,
    pub take_profit_price: Option<u64>,
    pub stop_loss_price: Option<u64>,
    /// The option's take-profit and stop-loss order book, once one is opened.
    pub tp_sl_orderbook: Option<AccountKey>,
}

/// A take-profit or stop-loss order: close `size_percent` basis points of the
/// position once the price reaches `price`.
#[derive(Debug, Clone, Copy, PartialEq, Eq, Structural)]
pub struct TpSlOrder {
    pub price: u64,
    pub size_percent: u64,
    pub receive_sol: bool,
    pub is_active: bool,
}

/// The take-profit and stop-loss orders of one position (`contract_type` `0`) or
/// option (`1`).
#[derive(Debug, Clone)]
pub struct TpSlOrderbook {
    pub owner: AccountKey,
    pub position: AccountKey,
    pub contract_type: u8,
    pub take_profit_orders: Vec<TpSlOrder>,
    pub stop_loss_orders: Vec<TpSlOrder>,
    pub bump: u8,
}

/// How one price compares with another.
#[derive(Debug, Clone, Copy, PartialEq, Eq, Structural)]
pub enum PriceOrder {
    Below,
    Equal,
    Above,
}

} // verus!
