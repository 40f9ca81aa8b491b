//! Laws of the library: properties that relate several of its operations, or that
//! hold of every state they produce.
use crate::convert::{lemma_share_bounds, portion, tokens_at_oracle, FULL_PERCENTAGE};
use crate::errors::{ConstraintError, Error, FutureError, PerpetualError, TradingError};
use crate::futures::{
    claim_future_check, close_future_check, close_future_report, future_after_close, open_future_check, opened_future,
    FutureKeys, FutureTerms, OpenFutureParams, OpenFutureQuote,
};
use crate::liquidity::{lp_tokens_for, redemption_usd_value};
use crate::math::{ceil_div, decimal_mul_value, fits_i32, pow10, scale_to_exponent_value, scaled_div_value, scaled_mul_value, scaled_to_bps_value, SCALED_ONE};
use crate::options::{
    claim_option_error, close_option_outcome, lemma_contract_share_bounds, open_option_outcome, CloseOptionParams,
    CloseOptionQuote, OpenOptionParams, OpenOptionQuote, OptionCloseKeys, OptionCloseState,
    OptionOpenKeys, OptionOpenState,
};
use crate::orders::{action_error, option_order_price_error, orders_after, perp_order_price_error, OrderAction};
use crate::perp::{
    amounts_to_close, collateral_to_subtract, execute_limit_check, executed_values, LimitExecutionQuote, liquidation_report, normalized_collateral, pnl_portion, ClosedAmounts, TriggeredOrder,
    books_after_execution, close_check, close_report, opened_position, position_after_close,
    tp_sl_selection, ExecuteTpSlOrderParams, OpenPerpPositionParams, OpenPerpQuote, PositionKeys,
};
use crate::registry::{first_index, lemma_first_index_is};
use crate::state::{AccountKey, Custody, Future, FutureStatus, OptionDetail, OraclePrice, Pool, OrderType, Position, PriceOrder, Side, TpSlOrder};
use crate::vault::{release_fits, released, withdraw_wsol_error, Lp, VaultOption, VaultUser};
use vstd::prelude::*;

verus! {

/// Basis points survive a round trip through the fixed-point percentage format.
pub proof fn law_bps_round_trip(bps: u32)
    ensures
        scaled_to_bps_value((bps * 10_000) as u64) == Some(bps),
{
    assert((bps * 10_000) as u64 / 10_000 == bps) by (nonlinear_arith)
        requires
            bps <= u32::MAX,
    ;
}

/// One is neutral for fixed-point multiplication and division.
pub proof fn law_scaled_one_is_neutral(x: u64)
    ensures
        scaled_mul_value(x, SCALED_ONE) == Some(x),
        scaled_div_value(x, SCALED_ONE) == Some(x),
{
    assert((x * 1_000_000int) / 1_000_000int == x) by (nonlinear_arith);
}

/// The rounded-up quotient is the least count of `b`s that covers `a`.
pub proof fn law_ceil_div_is_ceiling(a: nat, b: nat)
    requires
        b > 0,
    ensures
        ceil_div(a, b) * b >= a,
        a > 0 ==> (ceil_div(a, b) - 1) * b < a,
{
    if a > 0 {
        let q = ((a - 1) as nat / b) as int;
        assert(q * b <= a - 1 < (q + 1) * b) by (nonlinear_arith)
            requires
                b > 0,
                a >= 1,
                q == (a - 1) / (b as int),
        ;
    }
}

/// Rounding a quotient up gives the rounded-down quotient, or one more where the
/// division leaves a remainder.
pub proof fn lemma_ceil_is_floor_or_next(p: nat, d: nat)
    requires
        d >= 1,
    ensures
        p / d <= ceil_div(p, d) <= p / d + 1,
        ceil_div(p, d) == p / d <==> p % d == 0,
{
    if p > 0 {
        let x = (p - 1) as int;
        let q = x / (d as int);
        let r = x % (d as int);
        vstd::arithmetic::div_mod::lemma_fundamental_div_mod(x, d as int);
        assert(0 <= r < d) by {
            vstd::arithmetic::div_mod::lemma_mod_bound(x, d as int);
        }
        if r + 1 < d {
            vstd::arithmetic::div_mod::lemma_fundamental_div_mod_converse(p as int, d as int, q, r + 1);
        } else {
            assert(p as int == (q + 1) * (d as int) + 0) by (nonlinear_arith)
                requires
                    x == (d as int) * q + r,
                    r + 1 == d,
                    p as int == x + 1,
            ;
            vstd::arithmetic::div_mod::lemma_fundamental_div_mod_converse(p as int, d as int, q + 1, 0);
        }
    }
}

/// The product of two decimals rounded up is the product rounded down, or one unit
/// more where the exact product is not a whole number of target units; both exist
/// together unless the rounded-down product is the largest `u64` and the exact one
/// is not whole.
pub proof fn law_ceil_mul_is_floor_mul_or_next(
    coefficient1: u64,
    exponent1: i32,
    coefficient2: u64,
    exponent2: i32,
    target_exponent: i32,
)
    ensures
        decimal_mul_value(coefficient1, exponent1, coefficient2, exponent2, target_exponent, false) matches Some(m)
            ==> {
            let c = decimal_mul_value(coefficient1, exponent1, coefficient2, exponent2, target_exponent, true);
            let power = exponent1 + exponent2 - target_exponent;
            let exact = coefficient1 == 0 || coefficient2 == 0 || power >= 0 || (coefficient1 * coefficient2)
                % pow10(-power) == 0;
            &&& c matches Some(v) ==> m <= v <= m + 1
            &&& c matches Some(v) ==> (v == m <==> exact)
            &&& (m < u64::MAX || exact) ==> c is Some
        },
{
    let power = exponent1 + exponent2 - target_exponent;
    if coefficient1 != 0 && coefficient2 != 0 && fits_i32(exponent1 + exponent2) && fits_i32(power) && power < 0 {
        let d = pow10(-power);
        assert(d >= 1) by {
            vstd::arithmetic::power::lemma_pow_positive(10, (-power) as nat);
        }
        let prod = coefficient1 * coefficient2;
        assert(prod >= 0) by (nonlinear_arith)
            requires
                coefficient1 >= 0,
                coefficient2 >= 0,
                prod == coefficient1 * coefficient2,
        ;
        lemma_ceil_is_floor_or_next(prod as nat, d as nat);
    }
}

/// Scaling a price to an exponent `k` steps finer and back gives the price back,
/// where the finer price fits `u64` (and, for a zero price, where `10^k` does).
pub proof fn law_scale_to_finer_exponent_and_back(arg: u64, exponent: i32, k: i32)
    requires
        k >= 0,
        fits_i32(exponent - k),
        arg * pow10(k as int) <= u64::MAX,
        arg > 0 || pow10(k as int) <= u64::MAX,
    ensures
        scale_to_exponent_value(arg, exponent, (exponent - k) as i32) == Some((arg * pow10(k as int)) as u64),
        scale_to_exponent_value((arg * pow10(k as int)) as u64, (exponent - k) as i32, exponent) == Some(arg),
{
    let d = pow10(k as int);
    assert(d >= 1) by {
        vstd::arithmetic::power::lemma_pow_positive(10, k as nat);
    }
    if arg > 0 {
        assert(d <= arg * d) by (nonlinear_arith)
            requires
                arg >= 1,
                d >= 1,
        ;
    }
    assert((arg * d) / d == arg) by (nonlinear_arith)
        requires
            d >= 1,
    ;
    let t = (exponent - k) as i32;
    assert(t == exponent - k);
    if k == 0 {
        vstd::arithmetic::power::lemma_pow0(10);
        assert(arg * d == arg);
    } else {
        assert(t != exponent);
        assert(fits_i32(t - exponent));
        assert(t - exponent < 0);
        assert(-(t - exponent) == k);
        assert(fits_i32(exponent - t));
        assert(exponent - t == k);
    }
}

/// Rewriting a price with the exponent it already has leaves it unchanged.
pub proof fn law_scale_to_own_exponent(price: u64, exponent: i32)
    ensures
        scale_to_exponent_value(price, exponent, exponent) == Some(price),
{
}

/// A full close takes off the whole position: what it releases is everything the
/// position held, and the position is left empty and closed, so that no further
/// close is accepted.
pub proof fn law_full_close_empties_position(
    p: Position,
    pnl: i64,
    interest: u64,
    receive_sol: bool,
    sol: Custody,
    usdc: Custody,
    sol_price: OraclePrice,
    usdc_price: OraclePrice,
    now: i64,
    owner: AccountKey,
    percentage: u64,
)
    ensures
        close_report(p, FULL_PERCENTAGE, pnl, interest, receive_sol, sol, usdc, sol_price, usdc_price) matches Some(rep)
            ==> {
            let q = position_after_close(p, rep, now);
            &&& rep.is_full_close
            &&& rep.size_usd_closed == p.size_usd
            &&& rep.locked_released == p.locked_amount
            &&& rep.collateral_amount_closed == p.collateral_amount
            &&& q.size_usd == 0
            &&& q.collateral_amount == 0
            &&& q.collateral_usd == 0
            &&& q.locked_amount == 0
            &&& q.trade_fees == 0
            &&& q.is_liquidated
            &&& close_check(q, owner, percentage) is Some
        },
{
}

/// A partial close splits the position: the part closed and the part left add up
/// to what there was, for its size, collateral and locked tokens.
pub proof fn law_close_splits_position(
    p: Position,
    percentage: u64,
    pnl: i64,
    interest: u64,
    receive_sol: bool,
    sol: Custody,
    usdc: Custody,
    sol_price: OraclePrice,
    usdc_price: OraclePrice,
    now: i64,
)
    requires
        0 < percentage <= FULL_PERCENTAGE,
    ensures
        close_report(p, percentage, pnl, interest, receive_sol, sol, usdc, sol_price, usdc_price) matches Some(rep)
            ==> {
            let q = position_after_close(p, rep, now);
            &&& rep.size_usd_closed + q.size_usd == p.size_usd
            &&& rep.collateral_amount_closed + q.collateral_amount == p.collateral_amount
            &&& rep.collateral_usd_closed + q.collateral_usd == p.collateral_usd
            &&& rep.locked_released + q.locked_amount == p.locked_amount
        },
{
    lemma_share_bounds(p.size_usd, percentage);
    lemma_share_bounds(p.collateral_amount, percentage);
    lemma_share_bounds(p.collateral_usd, percentage);
    lemma_share_bounds(p.locked_amount, percentage);
}

/// A partial close of `percentage` takes off each amount's share, rounded down, and
/// leaves the rest on a position that stays open.
pub proof fn law_partial_close_takes_the_share(
    p: Position,
    percentage: u64,
    pnl: i64,
    interest: u64,
    receive_sol: bool,
    sol: Custody,
    usdc: Custody,
    sol_price: OraclePrice,
    usdc_price: OraclePrice,
    now: i64,
)
    requires
        0 < percentage < FULL_PERCENTAGE,
    ensures
        close_report(p, percentage, pnl, interest, receive_sol, sol, usdc, sol_price, usdc_price) matches Some(rep)
            ==> {
            let q = position_after_close(p, rep, now);
            &&& !rep.is_full_close
            &&& rep.size_usd_closed == (p.size_usd as int) * (percentage as int) / 100_000_000
            &&& rep.collateral_amount_closed == (p.collateral_amount as int) * (percentage as int) / 100_000_000
            &&& rep.collateral_usd_closed == (p.collateral_usd as int) * (percentage as int) / 100_000_000
            &&& rep.locked_released == (p.locked_amount as int) * (percentage as int) / 100_000_000
            &&& rep.trade_fees_paid == (p.trade_fees as int) * (percentage as int) / 100_000_000
            &&& q.size_usd == p.size_usd - rep.size_usd_closed
            &&& q.collateral_amount == p.collateral_amount - rep.collateral_amount_closed
            &&& q.collateral_usd == p.collateral_usd - rep.collateral_usd_closed
            &&& q.locked_amount == p.locked_amount - rep.locked_released
            &&& q.trade_fees == p.trade_fees - rep.trade_fees_paid
            &&& q.is_liquidated == p.is_liquidated
        },
{
    lemma_share_bounds(p.size_usd, percentage);
    lemma_share_bounds(p.collateral_amount, percentage);
    lemma_share_bounds(p.collateral_usd, percentage);
    lemma_share_bounds(p.locked_amount, percentage);
    lemma_share_bounds(p.trade_fees, percentage);
}

/// A partial early close of a future takes off each amount's share, rounded down,
/// leaves the future active with the rest, and returns no more collateral tokens on
/// top than the closed collateral.
pub proof fn law_partial_future_close_takes_the_share(
    f: Future,
    percentage: u64,
    pnl: i64,
    settlement_fee_bps: u64,
    receive_sol: bool,
    collateral_in_sol: bool,
    sol: Custody,
    usdc: Custody,
    sol_price: OraclePrice,
    usdc_price: OraclePrice,
    price: u64,
    now: i64,
)
    requires
        0 < percentage < FULL_PERCENTAGE,
    ensures
        close_future_report(
            f,
            percentage,
            pnl,
            settlement_fee_bps,
            receive_sol,
            collateral_in_sol,
            sol,
            usdc,
            sol_price,
            usdc_price,
        ) matches Some(rep) ==> {
            let g = future_after_close(f, rep, pnl, price, now);
            &&& !rep.is_full_close
            &&& g.size_usd == f.size_usd - (f.size_usd as int) * (percentage as int) / 100_000_000
            &&& g.collateral_usd == f.collateral_usd - (f.collateral_usd as int) * (percentage as int) / 100_000_000
            &&& g.collateral_amount == f.collateral_amount - (f.collateral_amount as int) * (percentage as int)
                / 100_000_000
            &&& g.locked_amount == f.locked_amount - (f.locked_amount as int) * (percentage as int) / 100_000_000
            &&& g.status == f.status
            &&& rep.remaining_collateral <= rep.collateral_amount_closed
        },
{
    lemma_share_bounds(f.size_usd, percentage);
    lemma_share_bounds(f.collateral_amount, percentage);
    lemma_share_bounds(f.collateral_usd, percentage);
    lemma_share_bounds(f.locked_amount, percentage);
}

/// What a full close of a freshly opened position releases is exactly what opening
/// it locked, and the open interest that it takes off is exactly what opening it
/// added.
pub proof fn law_full_close_releases_what_open_locked(
    params: OpenPerpPositionParams,
    quote: OpenPerpQuote,
    keys: PositionKeys,
    index: u64,
    pool: Pool,
    required: u64,
    normalized: u64,
    fees: u64,
    now: i64,
    pnl: i64,
    interest: u64,
    receive_sol: bool,
    sol: Custody,
    usdc: Custody,
    sol_price: OraclePrice,
    usdc_price: OraclePrice,
)
    ensures
        close_report(
            opened_position(params, quote, keys, index, pool, required, normalized, fees, now),
            FULL_PERCENTAGE,
            pnl,
            interest,
            receive_sol,
            sol,
            usdc,
            sol_price,
            usdc_price,
        ) matches Some(rep) ==> {
            &&& rep.locked_released == required
            &&& rep.size_usd_closed == quote.size_usd
            &&& rep.collateral_amount_closed == normalized
            &&& rep.trade_fees_paid == fees
        },
{
}

/// A full early close settles a future: it releases everything the future locked,
/// leaves it empty and settled (so no further close is accepted), and records the
/// settlement in dollars, which its owner can then claim where it is above zero.
pub proof fn law_full_future_close_settles(
    f: Future,
    pnl: i64,
    settlement_fee_bps: u64,
    receive_sol: bool,
    collateral_in_sol: bool,
    sol: Custody,
    usdc: Custody,
    sol_price: OraclePrice,
    usdc_price: OraclePrice,
    price: u64,
    now: i64,
    owner: AccountKey,
    percentage: u64,
    expired: bool,
)
    ensures
        close_future_report(
            f,
            FULL_PERCENTAGE,
            pnl,
            settlement_fee_bps,
            receive_sol,
            collateral_in_sol,
            sol,
            usdc,
            sol_price,
            usdc_price,
        ) matches Some(rep) ==> {
            let g = future_after_close(f, rep, pnl, price, now);
            &&& rep.locked_released == f.locked_amount
            &&& rep.size_usd_closed == f.size_usd
            &&& g.status == FutureStatus::Settled
            &&& g.locked_amount == 0
            &&& g.size_usd == 0
            &&& g.collateral_amount == 0
            &&& g.settlement_amount == Some(rep.settlement_usd)
            &&& close_future_check(g, owner, percentage, expired) is Some
            &&& (g.owner == owner && rep.settlement_usd > 0 ==> claim_future_check(g, owner) is None)
        },
{
}

/// What a full early close of a freshly opened future releases is exactly what
/// opening it locked, for its whole size.
pub proof fn law_future_close_releases_what_open_locked(
    params: OpenFutureParams,
    quote: OpenFutureQuote,
    terms: FutureTerms,
    keys: FutureKeys,
    index: u64,
    collateral_usd: u64,
    locked: u64,
    now: i64,
    pnl: i64,
    settlement_fee_bps: u64,
    receive_sol: bool,
    collateral_in_sol: bool,
    sol: Custody,
    usdc: Custody,
    sol_price: OraclePrice,
    usdc_price: OraclePrice,
)
    ensures
        close_future_report(
            opened_future(params, quote, terms, keys, index, collateral_usd, locked, now),
            FULL_PERCENTAGE,
            pnl,
            settlement_fee_bps,
            receive_sol,
            collateral_in_sol,
            sol,
            usdc,
            sol_price,
            usdc_price,
        ) matches Some(rep) ==> {
            &&& rep.locked_released == locked
            &&& rep.size_usd_closed == params.size_usd
            &&& rep.collateral_amount_closed == params.collateral_amount
        },
{
}

/// An executed take-profit or stop-loss order cannot fire again: on the book as its
/// execution leaves it, the same order is refused, whatever the position and price,
/// and for a position that passes the owner and open checks the refusal is
/// `InvalidAmount` (the order is no longer live, or the book is empty).
pub proof fn law_executed_order_cannot_fire_again(
    p: Position,
    position_key: AccountKey,
    book_owner: AccountKey,
    book_position: AccountKey,
    book_contract_type: u8,
    tp: Seq<TpSlOrder>,
    sl: Seq<TpSlOrder>,
    params: ExecuteTpSlOrderParams,
    price: u64,
    later: Position,
    later_price: u64,
)
    ensures
        tp_sl_selection(p, position_key, book_owner, book_position, book_contract_type, tp, sl, params, price) matches Ok(o)
            ==> {
            let after = books_after_execution(tp, sl, params, o.is_full_close);
            &&& tp_sl_selection(
                later,
                position_key,
                book_owner,
                book_position,
                book_contract_type,
                after.0,
                after.1,
                params,
                later_price,
            ) is Err
            &&& (later.owner == book_owner && !later.is_liquidated ==> tp_sl_selection(
                later,
                position_key,
                book_owner,
                book_position,
                book_contract_type,
                after.0,
                after.1,
                params,
                later_price,
            ) == Err::<crate::perp::TriggeredOrder, Error>(Error::TradingError(TradingError::InvalidAmount)))
        },
{
}

/// Adding a take-profit order and then removing it at the index it was given
/// leaves the book as it was.
pub proof fn law_remove_undoes_add_order(
    tp: Seq<TpSlOrder>,
    sl: Seq<TpSlOrder>,
    price: u64,
    size_percent: u64,
    receive_sol: bool,
)
    requires
        tp.len() < 256,
    ensures
        ({
            let added = orders_after(tp, sl, OrderAction::AddTakeProfit { price, size_percent, receive_sol });
            let remove = OrderAction::RemoveTakeProfit { index: tp.len() as u8 };
            &&& action_error(added.0, added.1, remove) is None
            &&& orders_after(added.0, added.1, remove) == (tp, sl)
        }),
{
    let added = orders_after(tp, sl, OrderAction::AddTakeProfit { price, size_percent, receive_sol });
    assert(added.0.remove(tp.len() as int) =~= tp);
}

/// Listing a key that is not yet listed keeps the list free of repeats, and the
/// key's index is the old length.
pub proof fn law_listing_keeps_keys_distinct(s: Seq<AccountKey>, key: AccountKey)
    requires
        s.no_duplicates(),
        !s.contains(key),
    ensures
        s.push(key).no_duplicates(),
        first_index(s.push(key), key) == Some(s.len() as int),
{
    let t = s.push(key);
    assert forall|i: int, j: int| 0 <= i < t.len() && 0 <= j < t.len() && i != j implies t[i] != t[j] by {
        if i < s.len() && j < s.len() {
            assert(t[i] == s[i] && t[j] == s[j]);
        } else if i == s.len() {
            assert(t[j] == s[j]);
        } else {
            assert(t[i] == s[i]);
        }
    }
    assert forall|j: int| 0 <= j < s.len() implies t[j] != key by {
        assert(t[j] == s[j]);
    }
    lemma_first_index_is(t, key, s.len() as int);
}

/// Removing a key that was just listed (a pool from the contract's list, a custody
/// from a pool's tokens) gives back the list as it was.
pub proof fn law_delisting_undoes_listing(s: Seq<AccountKey>, key: AccountKey)
    requires
        !s.contains(key),
    ensures
        s.push(key).remove(first_index(s.push(key), key).unwrap()) == s,
{
    let t = s.push(key);
    assert forall|j: int| 0 <= j < s.len() implies t[j] != key by {
        assert(t[j] == s[j]);
    }
    lemma_first_index_is(t, key, s.len() as int);
    assert(t.remove(s.len() as int) =~= s);
}

/// What an option holds for its owner is paid once: after a claim, a second claim
/// with the same accounts is refused, as there is nothing left to claim.
pub proof fn law_claim_option_pays_once(
    option: OptionDetail,
    custody: Custody,
    user_option_index: u64,
    owner: AccountKey,
    option_index: u64,
)
    requires
        claim_option_error(option, custody, user_option_index, owner, option_index) is None,
    ensures
        claim_option_error(
            OptionDetail { profit: option.claimed, claimed: 0, ..option },
            Custody { token_owned: (custody.token_owned - option.claimed) as u64, ..custody },
            user_option_index,
            owner,
            option_index,
        ) == Some(Error::ConstraintError(ConstraintError::RequireGtViolated)),
{
}

/// The settlement of a future is paid once: after a claim, a second claim is
/// refused as there is nothing left to claim.
pub proof fn law_claim_future_pays_once(f: Future, owner: AccountKey, now: i64)
    requires
        claim_future_check(f, owner) is None,
    ensures
        claim_future_check(Future { settlement_amount: Some(0), update_time: now, ..f }, owner) == Some(
            Error::FutureError(FutureError::NothingToClaim),
        ),
{
}

/// Closing every contract of an option ends it: the option is no longer valid, and
/// any later close that passes the checks pays nothing and changes nothing.
pub proof fn law_closing_all_contracts_ends_option(
    st: OptionCloseState,
    keys: OptionCloseKeys,
    user_option_index: u64,
    params: CloseOptionParams,
    quote: CloseOptionQuote,
    now: i64,
    later_params: CloseOptionParams,
    later_quote: CloseOptionQuote,
    later: i64,
)
    requires
        params.close_quantity == st.option.quantity,
    ensures
        close_option_outcome(st, keys, user_option_index, params, quote, now) matches Ok((Some(_), after)) ==> {
            &&& !after.option.valid
            &&& close_option_outcome(after, keys, user_option_index, later_params, later_quote, later) is Ok
                ==> close_option_outcome(after, keys, user_option_index, later_params, later_quote, later)
                == Ok::<(Option<u64>, OptionCloseState), Error>((None, after))
        },
{
}

/// A partial close of an option moves contracts, and the tokens that back them, from
/// the option to the record of closed contracts: their totals stay the same, and the
/// pool unlocks exactly the tokens that left the option. (The record starts empty:
/// one with no contracts holds no tokens.)
pub proof fn law_partial_close_conserves_contracts(
    st: OptionCloseState,
    keys: OptionCloseKeys,
    user_option_index: u64,
    params: CloseOptionParams,
    quote: CloseOptionQuote,
    now: i64,
)
    requires
        params.close_quantity < st.option.quantity,
        st.closed_option.quantity == 0 ==> st.closed_option.amount == 0,
    ensures
        close_option_outcome(st, keys, user_option_index, params, quote, now) matches Ok((Some(_), after)) ==> {
            &&& after.option.quantity + after.closed_option.quantity == st.option.quantity + st.closed_option.quantity
            &&& after.option.amount + after.closed_option.amount == st.option.amount + st.closed_option.amount
            &&& st.locked_custody.token_locked - after.locked_custody.token_locked == st.option.amount
                - after.option.amount
        },
{
    if params.close_quantity > 0 {
        lemma_contract_share_bounds(st.option.amount, params.close_quantity, st.option.quantity);
    }
}

/// Each option bought gets the trader's next index, and the trader's counter moves
/// to it.
pub proof fn law_open_option_numbers_options(
    st: OptionOpenState,
    keys: OptionOpenKeys,
    funding_balance: u64,
    params: OpenOptionParams,
    quote: OpenOptionQuote,
    now: i64,
)
    requires
        st.user.option_index < u64::MAX,
    ensures
        open_option_outcome(st, keys, funding_balance, params, quote, now) matches Ok(after) ==> {
            &&& after.user.option_index == st.user.option_index + 1
            &&& after.option.index == after.user.option_index
            &&& after.option.valid
        },
{
}

/// A withdrawal of what was just deposited is accepted (where the vault's token
/// account holds it) and leaves the vault and the depositor as they were.
pub proof fn law_withdraw_undoes_deposit(lp: Lp, user: VaultUser, amount: u64, vault_balance: u64)
    requires
        lp.sol_amount + amount <= u64::MAX,
        user.liquidity_wsol + amount <= u64::MAX,
        vault_balance >= amount,
    ensures
        ({
            let lp1 = Lp { sol_amount: (lp.sol_amount + amount) as u64, ..lp };
            let user1 = VaultUser { liquidity_wsol: (user.liquidity_wsol + amount) as u64, ..user };
            &&& withdraw_wsol_error(vault_balance, user1.liquidity_wsol, amount) is None
            &&& (Lp { sol_amount: (lp1.sol_amount - amount) as u64, ..lp1 }) == lp
            &&& (VaultUser { liquidity_wsol: (user1.liquidity_wsol - amount) as u64, ..user1 }) == user
        }),
{
}

/// Releasing an option's locked tokens moves them back to the vault's free holding:
/// the vault's total of each token stays the same.
pub proof fn law_release_conserves_vault(lp: Lp, option: VaultOption)
    requires
        release_fits(lp, option),
    ensures
        released(lp, option) matches Some(l) ==> {
            &&& l.sol_amount + l.locked_sol_amount == lp.sol_amount + lp.locked_sol_amount
            &&& l.usdc_amount + l.locked_usdc_amount == lp.usdc_amount + lp.locked_usdc_amount
        },
{
}

/// Redeeming every LP token redeems the whole value of the pool.
pub proof fn law_full_redemption_returns_pool_value(pool_amount_usd: u128, lp_supply: u64)
    requires
        lp_supply > 0,
        pool_amount_usd <= u64::MAX,
    ensures
        redemption_usd_value(pool_amount_usd, lp_supply, lp_supply) == Some(pool_amount_usd as u64),
{
    assert((pool_amount_usd as int) * (lp_supply as int) <= u128::MAX) by (nonlinear_arith)
        requires
            pool_amount_usd <= u64::MAX,
            lp_supply <= u64::MAX,
    ;
    assert((pool_amount_usd as int) * (lp_supply as int) / (lp_supply as int) == pool_amount_usd) by (nonlinear_arith)
        requires
            lp_supply > 0,
    ;
}

/// The first deposit into an empty pool mints LP tokens worth its dollar value, one
/// for one.
pub proof fn law_first_deposit_mints_its_value(token_amount_usd: u64, lp_supply: u64)
    ensures
        lp_tokens_for(token_amount_usd, 0, lp_supply) == Some(token_amount_usd),
{
}

/// The closed share of a signed profit or loss: `pnl * percentage / 100_000_000`,
/// rounded toward zero.
pub open spec fn truncated_share(pnl: i64, percentage: u64) -> int {
    if pnl >= 0 {
        (pnl as int) * (percentage as int) / 100_000_000
    } else {
        -((-(pnl as int)) * (percentage as int) / 100_000_000)
    }
}

/// The whole of an amount is its full share.
proof fn lemma_whole_share(x: int)
    requires
        x >= 0,
    ensures
        x * 100_000_000 / 100_000_000 == x,
{
    assert(x * 100_000_000 / 100_000_000 == x) by (nonlinear_arith);
}

/// The closed share of a signed amount lies between zero and the amount, and is the
/// share that a close realizes.
proof fn lemma_truncated_share(pnl: i64, percentage: u64)
    requires
        percentage <= FULL_PERCENTAGE,
    ensures
        pnl >= 0 ==> 0 <= truncated_share(pnl, percentage) <= pnl,
        pnl < 0 ==> pnl <= truncated_share(pnl, percentage) <= 0,
        truncated_share(pnl, percentage) == pnl_portion(pnl, percentage),
{
    if pnl >= 0 {
        assert(0 <= (pnl as int) * (percentage as int) / 100_000_000int <= pnl) by (nonlinear_arith)
            requires
                pnl >= 0,
                percentage <= 100_000_000,
        ;
        if percentage == FULL_PERCENTAGE {
            lemma_whole_share(pnl as int);
        }
    } else {
        let m = -(pnl as int);
        assert(0 <= m * (percentage as int) / 100_000_000int <= m) by (nonlinear_arith)
            requires
                m > 0,
                percentage <= 100_000_000,
        ;
        if percentage == FULL_PERCENTAGE {
            lemma_whole_share(m);
        }
    }
}

/// The share of an amount that a close of `percentage` removes, written out.
proof fn lemma_share_written_out(amount: u64, percentage: u64)
    requires
        percentage <= FULL_PERCENTAGE,
    ensures
        portion(amount, percentage) as int == (amount as int) * (percentage as int) / 100_000_000,
        (amount as int) * (percentage as int) / 100_000_000 <= amount,
{
    lemma_share_bounds(amount, percentage);
    if percentage == FULL_PERCENTAGE {
        lemma_whole_share(amount as int);
    }
}

/// A close of `percentage` (up to the whole position) realizes that share of the
/// profit or loss, rounded toward zero, and pays the closed share of the collateral plus that profit, less the
/// closed shares of the interest and the trade fees, floored at zero. It goes
/// through exactly where that settlement converts into the asset the owner asked
/// for and into the position's own asset, and pays the converted amount.
pub proof fn law_close_settles_its_share(
    p: Position,
    percentage: u64,
    pnl: i64,
    interest: u64,
    receive_sol: bool,
    sol: Custody,
    usdc: Custody,
    sol_price: OraclePrice,
    usdc_price: OraclePrice,
)
    requires
        0 < percentage <= FULL_PERCENTAGE,
    ensures
        ({
            let pct = percentage as int;
            let pnl_share = truncated_share(pnl, percentage);
            let interest_share = (interest as int) * pct / 100_000_000;
            let fee_share = (p.trade_fees as int) * pct / 100_000_000;
            let net = (p.collateral_usd as int) * pct / 100_000_000 + pnl_share - interest_share - fee_share;
            let usd: u64 = if net < 0 { 0 } else { net as u64 };
            let payout = if receive_sol { (sol_price, sol.decimals) } else { (usdc_price, usdc.decimals) };
            let own = if p.side == Side::Long { (sol_price, sol.decimals) } else { (usdc_price, usdc.decimals) };
            let report = close_report(p, percentage, pnl, interest, receive_sol, sol, usdc, sol_price, usdc_price);
            &&& net <= u64::MAX ==> (report is Some <==> (tokens_at_oracle(usd, payout.0, payout.1) is Some
                && tokens_at_oracle(usd, own.0, own.1) is Some))
            &&& report matches Some(rep) ==> {
                &&& rep.realized_pnl as int == pnl_share
                &&& rep.interest_paid as int == interest_share
                &&& rep.trade_fees_paid as int == fee_share
                &&& net < 0 ==> rep.settlement_usd == 0
                &&& 0 <= net <= u64::MAX ==> rep.settlement_usd as int == net
                &&& net <= u64::MAX ==> tokens_at_oracle(usd, payout.0, payout.1) == Some(rep.settlement_tokens)
                &&& net <= u64::MAX ==> tokens_at_oracle(usd, own.0, own.1) == Some(rep.native_exit_tokens)
            }
        }),
{
    lemma_truncated_share(pnl, percentage);
    lemma_share_written_out(p.collateral_usd, percentage);
    lemma_share_written_out(interest, percentage);
    lemma_share_written_out(p.trade_fees, percentage);
}

/// A take-profit or stop-loss order fires exactly when the price has reached it on
/// its side: for a long, a take-profit at or above its price and a stop-loss at or
/// below it; for a short, a take-profit at or below its price and a stop-loss at or
/// above it. The order that fires is the one the parameters name, with its price,
/// size and payout asset.
pub proof fn law_tp_sl_fires_on_its_side(
    p: Position,
    position_key: AccountKey,
    book_owner: AccountKey,
    book_position: AccountKey,
    book_contract_type: u8,
    tp: Seq<TpSlOrder>,
    sl: Seq<TpSlOrder>,
    params: ExecuteTpSlOrderParams,
    price: u64,
)
    ensures
        ({
            let orders = if params.trigger_order_type == 0 { tp } else { sl };
            let i = params.order_index as int;
            let long = p.side == Side::Long;
            let take_profit = params.trigger_order_type == 0;
            let fires = |order_price: u64|
                (take_profit && long && price >= order_price)
                || (take_profit && !long && price <= order_price)
                || (!take_profit && long && price <= order_price)
                || (!take_profit && !long && price >= order_price);
            let selection = tp_sl_selection(p, position_key, book_owner, book_position, book_contract_type, tp, sl, params, price);
            &&& selection matches Ok(o) ==> {
                &&& 0 <= i < orders.len()
                &&& orders[i].is_active
                &&& o.price == orders[i].price
                &&& o.size_percent == orders[i].size_percent
                &&& o.receive_sol == orders[i].receive_sol
                &&& o.is_full_close == (orders[i].size_percent >= 10_000)
                &&& fires(o.price)
            }
            &&& (p.owner == book_owner && !p.is_liquidated && book_contract_type == params.contract_type
                && book_position == position_key && i < orders.len() % 256 && orders[i].is_active) ==> {
                &&& selection is Ok <==> fires(orders[i].price)
                &&& !fires(orders[i].price) ==> selection == Err::<TriggeredOrder, Error>(
                    Error::PerpetualError(PerpetualError::TpSlNotTriggered),
                )
            }
        }),
{
}

/// An opened option records what was bought: a call (type `0`) exactly when its
/// underlying custody is the one whose tokens are locked, a put (type `1`)
/// otherwise; the quoted premium per contract and the number of whole contracts
/// that the paid amount buys at it; the trader, the terms and the accounts. The
/// premium joins the pay custody and the quoted tokens are locked, within what the
/// pool owns. It goes through whenever the trader can pay, the quote is usable and
/// the pool can lock the tokens.
pub proof fn law_opened_option_records_its_terms(
    st: OptionOpenState,
    keys: OptionOpenKeys,
    funding_balance: u64,
    params: OpenOptionParams,
    quote: OpenOptionQuote,
    now: i64,
)
    ensures
        ({
            let outcome = open_option_outcome(st, keys, funding_balance, params, quote, now);
            &&& outcome matches Ok(after) ==> {
                &&& (after.option.option_type == 0) == (keys.custody == keys.locked_custody)
                &&& (after.option.option_type == 1) == (keys.custody != keys.locked_custody)
                &&& quote.pay_amount matches Some(pay) && {
                    &&& pay > 0
                    &&& after.option.premium == pay
                    &&& after.option.quantity * pay <= params.amount < (after.option.quantity + 1) * pay
                }
                &&& after.option.amount == params.amount
                &&& after.option.owner == keys.owner
                &&& after.option.premium_asset == keys.pay_custody
                &&& after.option.locked_asset == keys.locked_custody
                &&& after.option.custody == keys.custody
                &&& after.option.pool == keys.pool
                &&& after.option.strike_price == params.strike_price
                &&& after.option.period == params.period
                &&& after.option.valid
                &&& funding_balance >= params.amount
                &&& after.pay_custody.token_owned == st.pay_custody.token_owned + params.amount
                &&& quote.locked_amount matches Some(lock)
                    && after.locked_custody.token_locked == st.locked_custody.token_locked + lock
                &&& after.locked_custody.token_locked <= after.locked_custody.token_owned
                &&& after.locked_custody.token_owned == st.locked_custody.token_owned
            }
            &&& (funding_balance >= params.amount && st.pay_custody.token_owned + params.amount <= u64::MAX) ==> (
                quote.pay_amount matches Some(pay) ==> (quote.locked_amount matches Some(lock) ==> (
                    (pay > 0 && st.locked_custody.token_locked + lock <= st.locked_custody.token_owned)
                        ==> outcome is Ok)))
        }),
{
    if let Ok(after) = open_option_outcome(st, keys, funding_balance, params, quote, now) {
        let pay = quote.pay_amount->0;
        let q = params.amount / pay;
        assert(q * pay <= params.amount < (q + 1) * pay) by (nonlinear_arith)
            requires
                pay > 0,
                q == params.amount / pay,
        ;
    }
}

/// An early close of `percentage` of a future (up to all of it) charges the
/// settlement fee on the closed size only: `fee_bps` basis points of the closed share of the size, rounded down.
/// It realizes the closed share of the profit or loss, rounded toward zero, and pays
/// the closed share of the collateral plus that profit less the fee, floored at
/// zero; where that falls short of the closed collateral, the shortfall comes back
/// in collateral tokens, at most the closed collateral tokens.
pub proof fn law_future_close_charges_its_share(
    f: Future,
    percentage: u64,
    pnl: i64,
    fee_bps: u64,
    receive_sol: bool,
    collateral_in_sol: bool,
    sol: Custody,
    usdc: Custody,
    sol_price: OraclePrice,
    usdc_price: OraclePrice,
)
    requires
        0 < percentage <= FULL_PERCENTAGE,
    ensures
        ({
            let pct = percentage as int;
            let size_share = (f.size_usd as int) * pct / 100_000_000;
            let collateral_share = (f.collateral_usd as int) * pct / 100_000_000;
            let fee = (size_share * (fee_bps as int) / 10_000) as u64;
            let pnl_share = truncated_share(pnl, percentage);
            let net = collateral_share + pnl_share - fee;
            let payout = if receive_sol { (sol_price, sol.decimals) } else { (usdc_price, usdc.decimals) };
            let back = if collateral_in_sol { (sol_price, sol.decimals) } else { (usdc_price, usdc.decimals) };
            close_future_report(
                f,
                percentage,
                pnl,
                fee_bps,
                receive_sol,
                collateral_in_sol,
                sol,
                usdc,
                sol_price,
                usdc_price,
            ) matches Some(rep) ==> {
                &&& rep.size_usd_closed as int == size_share
                &&& rep.collateral_usd_closed as int == collateral_share
                &&& rep.closing_fee == fee
                &&& rep.realized_pnl as int == pnl_share
                &&& net <= 0 ==> rep.settlement_usd == 0
                &&& 0 < net <= u64::MAX ==> rep.settlement_usd as int == net
                &&& (0 < net <= u64::MAX ==> tokens_at_oracle(net as u64, payout.0, payout.1) == Some(rep.settlement_tokens))
                &&& net <= 0 ==> rep.settlement_tokens == 0
                &&& rep.remaining_collateral <= rep.collateral_amount_closed
                &&& rep.settlement_usd >= collateral_share ==> rep.remaining_collateral == 0
                &&& rep.settlement_usd < collateral_share ==> (tokens_at_oracle(
                    (collateral_share - rep.settlement_usd) as u64,
                    back.0,
                    back.1,
                ) matches Some(t) && rep.remaining_collateral == (if t <= rep.collateral_amount_closed {
                    t
                } else {
                    rep.collateral_amount_closed
                }))
            }
        }),
{
    lemma_truncated_share(pnl, percentage);
    lemma_share_written_out(f.size_usd, percentage);
    lemma_share_written_out(f.collateral_usd, percentage);
    lemma_share_written_out(f.collateral_amount, percentage);
}

/// A withdrawal of collateral comes off the position's recorded collateral in the
/// collateral's own asset: the withdrawn tokens themselves where they are paid in
/// that asset, their converted value (the quote's cross-asset amount) where they
/// are paid in the other one, never the raw count of the other asset's tokens.
pub proof fn law_withdrawal_counts_in_collateral_asset(
    collateral_in_sol: bool,
    receive_sol: bool,
    amount: u64,
    cross_asset_amount: u64,
)
    ensures
        collateral_in_sol == receive_sol ==> collateral_to_subtract(
            collateral_in_sol,
            receive_sol,
            amount,
            cross_asset_amount,
        ) == amount,
        collateral_in_sol != receive_sol ==> collateral_to_subtract(
            collateral_in_sol,
            receive_sol,
            amount,
            cross_asset_amount,
        ) == cross_asset_amount,
{
}

/// An order on a perpetual position must sit on its own side of the entry: a
/// take-profit above the entry for a long and below it for a short; a stop-loss
/// between the liquidation price and the entry, below the entry for a long and
/// above it for a short. Any other price is refused with the order's own error.
pub proof fn law_perp_order_prices_sit_on_their_side(p: Position, price: u64, size_percent: u64, receive_sol: bool)
    ensures
        ({
            let long = p.side == Side::Long;
            let tp_ok = (long && price > p.price) || (!long && price < p.price);
            let sl_ok = (long && p.liquidation_price < price < p.price) || (!long && p.price < price
                < p.liquidation_price);
            &&& perp_order_price_error(p, OrderAction::AddTakeProfit { price, size_percent, receive_sol }) == if tp_ok {
                None
            } else {
                Some(Error::TradingError(TradingError::InvalidTakeProfitPrice))
            }
            &&& perp_order_price_error(p, OrderAction::AddStopLoss { price, size_percent, receive_sol }) == if sl_ok {
                None
            } else {
                Some(Error::TradingError(TradingError::InvalidStopLossPrice))
            }
        }),
{
}

/// An order on an option must sit on its own side of the strike: a take-profit
/// above the strike for a call (type `0`) and below it for a put; a stop-loss below
/// the strike for a call and above it for a put. A price at the strike suits
/// neither.
pub proof fn law_option_order_prices_sit_on_their_side(
    option_type: u8,
    vs_strike: PriceOrder,
    price: u64,
    size_percent: u64,
    receive_sol: bool,
)
    ensures
        ({
            let call = option_type == 0;
            let tp_ok = (call && vs_strike == PriceOrder::Above) || (!call && vs_strike == PriceOrder::Below);
            let sl_ok = (call && vs_strike == PriceOrder::Below) || (!call && vs_strike == PriceOrder::Above);
            &&& option_order_price_error(
                option_type,
                OrderAction::AddTakeProfit { price, size_percent, receive_sol },
                vs_strike,
            ) == if tp_ok {
                None
            } else {
                Some(Error::TradingError(TradingError::InvalidTakeProfitPrice))
            }
            &&& option_order_price_error(
                option_type,
                OrderAction::AddStopLoss { price, size_percent, receive_sol },
                vs_strike,
            ) == if sl_ok {
                None
            } else {
                Some(Error::TradingError(TradingError::InvalidStopLossPrice))
            }
            &&& vs_strike == PriceOrder::Equal ==> option_order_price_error(
                option_type,
                OrderAction::AddTakeProfit { price, size_percent, receive_sol },
                vs_strike,
            ) is Some
        }),
{
}

/// A liquidation closes the whole position and owes its owner the collateral plus
/// the profit, less the interest and the trade fees, floored at zero; the
/// liquidator gets nothing.
pub proof fn law_liquidation_settles_the_whole_position(p: Position, pnl: i64, interest: u64)
    ensures
        ({
            let net = (p.collateral_usd as int) + (pnl as int) - (interest as int) - (p.trade_fees as int);
            let rep = liquidation_report(p, pnl, interest);
            &&& net < 0 ==> rep.settlement_usd == 0
            &&& 0 <= net <= u64::MAX ==> rep.settlement_usd as int == net
            &&& rep.liquidator_reward_usd == 0
            &&& rep.size_usd_closed == p.size_usd
            &&& rep.collateral_amount_released == p.collateral_amount
            &&& rep.locked_released == p.locked_amount
            &&& rep.interest_paid == interest
            &&& rep.trade_fees_paid == p.trade_fees
        }),
{
}

/// A new position enters at the limit order's trigger price where it has one and at
/// the current price otherwise; it records its collateral in its own side's asset
/// (as paid where the trader paid in that asset, converted at that asset's oracle
/// price otherwise), in the custody it was paid into, and takes its side's interest
/// snapshot. Only a market order is executed at once.
pub proof fn law_opened_position_records_its_terms(
    params: OpenPerpPositionParams,
    quote: OpenPerpQuote,
    keys: PositionKeys,
    index: u64,
    pool: Pool,
    required: u64,
    normalized: u64,
    fees: u64,
    now: i64,
    collateral_usd: u64,
    sol: Custody,
    usdc: Custody,
    sol_price: OraclePrice,
    usdc_price: OraclePrice,
)
    ensures
        ({
            let q = opened_position(params, quote, keys, index, pool, required, normalized, fees, now);
            let long = params.side == Side::Long;
            &&& q.price == (if params.order_type == OrderType::Limit && params.trigger_price is Some {
                params.trigger_price->0
            } else {
                quote.current_price
            })
            &&& q.side == params.side
            &&& q.owner == keys.owner
            &&& q.index == index
            &&& q.size_usd == quote.size_usd
            &&& q.collateral_usd == quote.collateral_usd
            &&& q.collateral_amount == normalized
            &&& q.locked_amount == required
            &&& q.trade_fees == fees
            &&& q.liquidation_price == quote.liquidation_price
            &&& q.collateral_custody == (if params.pay_sol { keys.sol_custody } else { keys.usdc_custody })
            &&& q.cumulative_interest_snapshot == (if long {
                pool.cumulative_interest_rate_long
            } else {
                pool.cumulative_interest_rate_short
            })
            &&& (q.execution_time == Some(now)) == (params.order_type == OrderType::Market)
            &&& (params.order_type == OrderType::Limit ==> q.execution_time is None)
            &&& !q.is_liquidated
            &&& q.borrow_fees_paid == 0
            &&& q.accrued_borrow_fees == 0
            &&& normalized_collateral(params, collateral_usd, sol, usdc, sol_price, usdc_price) == if long
                && params.pay_sol {
                Some(params.collateral_amount)
            } else if !long && !params.pay_sol {
                Some(params.collateral_amount)
            } else if long {
                tokens_at_oracle(collateral_usd, sol_price, sol.decimals)
            } else {
                tokens_at_oracle(collateral_usd, usdc_price, usdc.decimals)
            }
        }),
{
}

/// A take-profit or stop-loss order that covers the whole position closes all of
/// it, with its whole profit and interest; a partial one closes the shares given.
pub proof fn law_full_order_closes_everything(p: Position, partial: ClosedAmounts, pnl: i64, interest: u64)
    ensures
        ({
            let c = amounts_to_close(p, true, partial, pnl, interest);
            &&& c.size_usd == p.size_usd
            &&& c.collateral_amount == p.collateral_amount
            &&& c.collateral_usd == p.collateral_usd
            &&& c.locked_amount == p.locked_amount
            &&& c.trade_fees == p.trade_fees
            &&& c.pnl == pnl
            &&& c.interest == interest
            &&& amounts_to_close(p, false, partial, pnl, interest) == partial
        }),
{
}

/// A future is accepted only with an expiry between one hour and one year ahead
/// and a size between one dollar and a million dollars (six decimals).
pub proof fn law_future_terms_are_bounded(params: OpenFutureParams, now: i64)
    ensures
        open_future_check(params, now) is None <==> {
            &&& now + 3600 <= params.expiry_timestamp <= now + 31_536_000
            &&& 1_000_000 <= params.size_usd <= 1_000_000_000_000
        },
{
}

/// A new future is active, enters at the spot price, records its collateral in the
/// custody it was paid into, and charges its opening and settlement fees on its
/// whole size, in basis points rounded down.
pub proof fn law_opened_future_records_its_terms(
    params: OpenFutureParams,
    quote: OpenFutureQuote,
    terms: FutureTerms,
    keys: FutureKeys,
    index: u64,
    collateral_usd: u64,
    locked: u64,
    now: i64,
)
    ensures
        ({
            let f = opened_future(params, quote, terms, keys, index, collateral_usd, locked, now);
            &&& f.status == FutureStatus::Active
            &&& f.side == params.side
            &&& f.owner == keys.owner
            &&& f.entry_price == quote.sol_price
            &&& f.future_price == quote.future_price
            &&& f.size_usd == params.size_usd
            &&& f.collateral_usd == collateral_usd
            &&& f.collateral_amount == params.collateral_amount
            &&& f.locked_amount == locked
            &&& f.expiry_time == params.expiry_timestamp
            &&& f.collateral_custody == (if params.pay_sol { keys.sol_custody } else { keys.usdc_custody })
            &&& f.opening_fee == ((params.size_usd as int) * (terms.opening_fee_bps as int) / 10_000) as u64
            &&& f.settlement_fee == ((params.size_usd as int) * (terms.settlement_fee_bps as int) / 10_000) as u64
            &&& f.settlement_price is None
            &&& f.settlement_amount is None
        }),
{
}

/// A limit order executes only for a live limit position whose trigger holds, at a
/// positive execution price within one percent (rounded down) of the current price.
/// It then counts a long's tokens (nine decimals) in whole units at the SOL price
/// and a short's tokens (six decimals) in whole units at the USDC price.
pub proof fn law_limit_execution_within_one_percent(p: Position, q: LimitExecutionQuote)
    ensures
        execute_limit_check(p, q) is None <==> {
            &&& !p.is_liquidated
            &&& p.order_type == OrderType::Limit
            &&& q.execution_price_positive
            &&& q.limit_triggered
            &&& q.current_price - q.current_price / 100 <= q.execution_price <= q.current_price + q.current_price / 100
        },
        p.side == Side::Long ==> executed_values(p, q) == (
            (p.locked_amount / 1_000_000_000) * q.current_price,
            (p.collateral_amount / 1_000_000_000) * q.current_price,
        ),
        p.side == Side::Short ==> executed_values(p, q) == (
            (p.locked_amount / 1_000_000) * q.usdc_price,
            (p.collateral_amount / 1_000_000) * q.usdc_price,
        ),
{
}

/// Selling contracts back pays ninety percent (rounded down) of their quoted value,
/// counted as at least one token unit where the value is above zero but rounds to
/// nothing, out of what the pool holds beyond its locked tokens; and unlocks the
/// contracts' share of the option's tokens, rounded down.
pub proof fn law_option_close_refunds_ninety_percent(
    st: OptionCloseState,
    keys: OptionCloseKeys,
    user_option_index: u64,
    params: CloseOptionParams,
    quote: CloseOptionQuote,
    now: i64,
)
    ensures
        close_option_outcome(st, keys, user_option_index, params, quote, now) matches Ok((Some(refund), after)) ==> {
            let raw = quote.refund_amount_raw->0;
            let counted: int = if raw == 0 && quote.value_positive { 1 } else { raw as int };
            let unlock = (st.option.amount as int) * (params.close_quantity as int) / (st.option.quantity as int);
            &&& quote.refund_amount_raw is Some
            &&& refund as int == counted * 9 / 10
            &&& counted > 0
            &&& now < st.option.expired_date
            &&& st.option.valid
            &&& refund <= st.locked_custody.token_owned - st.locked_custody.token_locked
            &&& after.locked_custody.token_owned == st.locked_custody.token_owned - refund
            &&& after.locked_custody.token_locked == st.locked_custody.token_locked - unlock
        },
{
}

/// A deposit into a pool with value mints LP tokens in proportion to the pool's
/// value, rounded down; redeeming LP tokens pays their share of the pool's value,
/// rounded down.
pub proof fn law_lp_tokens_are_proportional(usd: u64, pool_amount_usd: u128, lp_supply: u64, lp_amount_in: u64)
    ensures
        pool_amount_usd > 0 ==> (lp_tokens_for(usd, pool_amount_usd, lp_supply) matches Some(v) ==> {
            &&& (v as int) * (pool_amount_usd as int) <= (usd as int) * (lp_supply as int)
            &&& (usd as int) * (lp_supply as int) < (v as int + 1) * (pool_amount_usd as int)
        }),
        redemption_usd_value(pool_amount_usd, lp_amount_in, lp_supply) matches Some(v) ==> {
            &&& (v as int) * (lp_supply as int) <= (pool_amount_usd as int) * (lp_amount_in as int)
            &&& (pool_amount_usd as int) * (lp_amount_in as int) < (v as int + 1) * (lp_supply as int)
        },
{
    if pool_amount_usd > 0 {
        let a = pool_amount_usd as int;
        let n = (usd as int) * (lp_supply as int);
        assert((n / a) * a <= n < (n / a + 1) * a) by (nonlinear_arith)
            requires
                a > 0,
                n >= 0,
        ;
    }
    if lp_supply > 0 {
        let d = lp_supply as int;
        let n = (pool_amount_usd as int) * (lp_amount_in as int);
        assert((n / d) * d <= n < (n / d + 1) * d) by (nonlinear_arith)
            requires
                d > 0,
                n >= 0,
        ;
    }
}

/// Depositing into a pool with value and then redeeming the LP tokens minted never
/// pays back more dollars than were deposited: rounding favours the pool.
pub proof fn law_deposit_then_redeem_gains_nothing(usd: u64, pool_amount_usd: u128, lp_supply: u64)
    requires
        pool_amount_usd > 0,
        pool_amount_usd + usd <= u128::MAX,
    ensures
        lp_tokens_for(usd, pool_amount_usd, lp_supply) matches Some(minted) ==> (
            lp_supply + minted <= u64::MAX ==> (
                redemption_usd_value((pool_amount_usd + usd) as u128, minted, (lp_supply + minted) as u64) matches Some(back)
                    ==> back <= usd)),
{
    if let Some(minted) = lp_tokens_for(usd, pool_amount_usd, lp_supply) {
        let a = pool_amount_usd as int;
        let u = usd as int;
        let s = lp_supply as int;
        let m = minted as int;
        assert(m * a <= u * s) by (nonlinear_arith)
            requires
                a > 0,
                m == (u * s) / a,
                u >= 0,
                s >= 0,
        ;
        if lp_supply + minted <= u64::MAX && s + m > 0 {
            assert((a + u) * m / (s + m) <= u) by (nonlinear_arith)
                requires
                    m * a <= u * s,
                    s + m > 0,
                    a > 0,
                    u >= 0,
                    m >= 0,
                    s >= 0,
            ;
        }
    }
}

} // verus!
