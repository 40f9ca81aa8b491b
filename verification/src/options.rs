//! Options bought from the pool: opening, editing, closing, exercising and claiming
//! them, and their take-profit and stop-loss prices.
//!
//! Option prices come from a pricing model in floating point, which runs outside this
//! library; each instruction here takes the amounts that the model produced (a
//! premium, a refund, a profit) and does the bookkeeping around them.
use crate::errors::{ConstraintError, Error, OptionError, PoolError, TradingError, overflow};
use crate::math::trunc_div;
use crate::orders::{option_stop_loss_ok, option_take_profit_ok};
use crate::state::{AccountKey, Custody, OptionDetail, PriceOrder, User};
use vstd::prelude::*;

verus! {

/// The error of a plain `>=` comparison that fails.
pub open spec fn gte_violated() -> Error {
    Error::ConstraintError(ConstraintError::RequireGteViolated)
}

/// Parameters of [`claim_option`].
#[derive(Debug, Clone)]
pub struct ClaimOptionParams {
    pub option_index: u64,
    pub pool_name: String,
}

/// The error of claiming what an option holds for `owner`, a trader whose options
/// are numbered up to `user_option_index`: the option must be the owner's, no longer
/// valid, hold something to claim, and the pool must have that much free.
pub open spec fn claim_option_error(
    option: OptionDetail,
    custody: Custody,
    user_option_index: u64,
    owner: AccountKey,
    option_index: u64,
) -> Option<Error> {
    if user_option_index < option_index {
        Some(gte_violated())
    } else if option.owner != owner {
        Some(Error::TradingError(TradingError::InvalidOwner))
    } else if option.valid {
        Some(Error::ConstraintError(ConstraintError::RequireEqViolated))
    } else if option.claimed == 0 {
        Some(Error::ConstraintError(ConstraintError::RequireGtViolated))
    } else if custody.token_owned < custody.token_locked {
        Some(overflow())
    } else if custody.token_owned - custody.token_locked < option.claimed {
        Some(gte_violated())
    } else {
        None
    }
}

/// Pays out what an expired or exercised option holds for its owner: the amount
/// leaves the locked custody, becomes the option's profit, and nothing is left to
/// claim. Returns the amount to transfer. On an error nothing changes.
pub fn claim_option(
    option: &mut OptionDetail,
    locked_custody: &mut Custody,
    user_option_index: u64,
    owner: AccountKey,
    params: &ClaimOptionParams,
) -> (r: Result<u64, Error>)
    ensures
        match claim_option_error(*old(option), *old(locked_custody), user_option_index, owner, params.option_index) {
            Some(e) => {
                &&& r == Err::<u64, Error>(e)
                &&& *final(option) == *old(option)
                &&& *final(locked_custody) == *old(locked_custody)
            },
            None => {
                &&& r == Ok::<u64, Error>(old(option).claimed)
                &&& *final(option) == (OptionDetail { profit: old(option).claimed, claimed: 0, ..*old(option) })
                &&& *final(locked_custody) == (Custody {
                    token_owned: (old(locked_custody).token_owned - old(option).claimed) as u64,
                    ..*old(locked_custody)
                })
            },
        },
{
    if user_option_index < params.option_index {
        return Err(Error::ConstraintError(ConstraintError::RequireGteViolated));
    }
    if option.owner != owner {
        return Err(Error::TradingError(TradingError::InvalidOwner));
    }
    if option.valid {
        return Err(Error::ConstraintError(ConstraintError::RequireEqViolated));
    }
    if option.claimed == 0 {
        return Err(Error::ConstraintError(ConstraintError::RequireGtViolated));
    }
    let free = crate::math::checked_sub(locked_custody.token_owned, locked_custody.token_locked)?;
    if free < option.claimed {
        return Err(Error::ConstraintError(ConstraintError::RequireGteViolated));
    }
    let claim_amount = option.claimed;
    locked_custody.token_owned = locked_custody.token_owned - claim_amount;
    option.profit = claim_amount;
    option.claimed = 0;
    Ok(claim_amount)
}

/// Parameters of [`exercise_option`].
#[derive(Debug, Clone)]
pub struct ExerciseOptionParams {
    pub option_index: u64,
    pub pool_name: String,
}

/// The error of exercising `option` at time `now`: it must not have expired, its
/// locked tokens must still be locked, and it must be in the money.
pub open spec fn exercise_option_error(
    option: OptionDetail,
    locked_custody: Custody,
    user_option_index: u64,
    option_index: u64,
    now: i64,
    in_the_money: bool,
) -> Option<Error> {
    if user_option_index < option_index {
        Some(gte_violated())
    } else if option.expired_date <= now {
        Some(Error::OptionError(OptionError::InvalidTimeError))
    } else if locked_custody.token_locked < option.amount {
        Some(Error::OptionError(OptionError::InvalidLockedBalanceError))
    } else if !in_the_money {
        Some(Error::OptionError(OptionError::InvalidPriceRequirementError))
    } else {
        None
    }
}

/// Exercises an option before its expiry. `in_the_money` says whether the oracle
/// price has reached the strike (at or above it for a call, at or below it for a
/// put); `profit` is the amount paid out, which the pricing computed. The option is
/// spent, its tokens are unlocked and the profit is recorded. On an error nothing
/// changes.
pub fn exercise_option(
    option: &mut OptionDetail,
    locked_custody: &mut Custody,
    user_option_index: u64,
    params: &ExerciseOptionParams,
    current_time: i64,
    in_the_money: bool,
    profit: u64,
) -> (r: Result<(), Error>)
    ensures
        match exercise_option_error(
            *old(option),
            *old(locked_custody),
            user_option_index,
            params.option_index,
            current_time,
            in_the_money,
        ) {
            Some(e) => {
                &&& r == Err::<(), Error>(e)
                &&& *final(option) == *old(option)
                &&& *final(locked_custody) == *old(locked_custody)
            },
            None => {
                &&& r == Ok::<(), Error>(())
                &&& *final(option) == (OptionDetail {
                    profit,
                    exercised: current_time as u64,
                    valid: false,
                    ..*old(option)
                })
                &&& *final(locked_custody) == (Custody {
                    token_locked: (old(locked_custody).token_locked - old(option).amount) as u64,
                    ..*old(locked_custody)
                })
            },
        },
{
    if user_option_index < params.option_index {
        return Err(Error::ConstraintError(ConstraintError::RequireGteViolated));
    }
    if option.expired_date <= current_time {
        return Err(Error::OptionError(OptionError::InvalidTimeError));
    }
    if locked_custody.token_locked < option.amount {
        return Err(Error::OptionError(OptionError::InvalidLockedBalanceError));
    }
    if !in_the_money {
        return Err(Error::OptionError(OptionError::InvalidPriceRequirementError));
    }
    option.profit = profit;
    option.exercised = current_time as u64;
    option.valid = false;
    locked_custody.token_locked = locked_custody.token_locked - option.amount;
    Ok(())
}

/// Parameters of [`close_option`]: sells `close_quantity` contracts back to the pool.
#[derive(Debug, Clone)]
pub struct CloseOptionParams {
    pub option_index: u64,
    pub pool_name: String,
    pub close_quantity: u64,
}

/// What the pricing says the closed contracts are worth.
#[derive(Debug, Clone, Copy, PartialEq, Eq, Structural)]
pub struct CloseOptionQuote {
    /// Their value in units of the locked token, rounded down; `None` where that
    /// amount is not a `u64`.
    pub refund_amount_raw: Option<u64>,
    /// Whether their value is above zero.
    pub value_positive: bool,
}

/// The accounts that a close of an option touches.
#[derive(Debug, Clone, Copy, PartialEq, Eq, Structural)]
pub struct OptionCloseState {
    pub option: OptionDetail,
    pub closed_option: OptionDetail,
    pub locked_custody: Custody,
}

/// The addresses that a close of an option checks or records.
#[derive(Debug, Clone, Copy, PartialEq, Eq, Structural)]
pub struct OptionCloseKeys {
    pub pay_custody: AccountKey,
    pub locked_custody: AccountKey,
    pub pool: AccountKey,
    pub custody: AccountKey,
}

/// The share of `amount` that `part` of `whole` contracts stand for, rounded down.
pub open spec fn contract_share(amount: u64, part: u64, whole: u64) -> int {
    (amount as int) * (part as int) / (whole as int)
}

/// The raw refund, raised to one token unit where it rounds to zero but the value is
/// above zero.
pub open spec fn floored_refund(raw: u64, value_positive: bool) -> u64 {
    if raw == 0 && value_positive {
        1
    } else {
        raw
    }
}

/// The part of a refund paid out: ninety percent, rounded down.
pub open spec fn after_close_fee(amount: int) -> int {
    amount * 9 / 10
}

/// The record of closed contracts after `quantity` more of `option`, holding
/// `unlocked` tokens, were closed at `now`: added to an existing record, or a new
/// record with the option's terms and its share of the premium. `None` where a
/// total leaves `u64`.
pub open spec fn closed_record_after(
    closed: OptionDetail,
    option: OptionDetail,
    quantity: u64,
    unlocked: u64,
    keys: OptionCloseKeys,
    now: i64,
) -> Option<OptionDetail> {
    if closed.quantity > 0 {
        if closed.quantity + quantity > u64::MAX || closed.amount + unlocked > u64::MAX {
            None
        } else {
            Some(OptionDetail {
                quantity: (closed.quantity + quantity) as u64,
                amount: (closed.amount + unlocked) as u64,
                bought_back: now as u64,
                ..closed
            })
        }
    } else if (option.premium as int) * (quantity as int) > u64::MAX {
        None
    } else {
        Some(OptionDetail {
            valid: false,
            quantity,
            amount: unlocked,
            owner: option.owner,
            index: option.index,
            period: option.period,
            expired_date: option.expired_date,
            purchase_date: option.purchase_date,
            option_type: option.option_type,
            strike_price: option.strike_price,
            premium_asset: option.premium_asset,
            locked_asset: option.locked_asset,
            pool: keys.pool,
            custody: keys.custody,
            premium: contract_share(option.premium, quantity, option.quantity) as u64,
            bought_back: now as u64,
            ..closed
        })
    }
}

/// The outcome of closing `close_quantity` contracts of a valid option at `now`:
/// the refund paid and the accounts after, or the error. The contracts' share of the
/// locked tokens is unlocked; the refund, the quote less the close fee, leaves the
/// pool, which must hold it beyond what it has locked. Closing every contract spends
/// the option; closing some moves them to the record of closed contracts.
pub open spec fn valid_close_outcome(
    st: OptionCloseState,
    keys: OptionCloseKeys,
    close_quantity: u64,
    quote: CloseOptionQuote,
    now: i64,
) -> Result<(u64, OptionCloseState), Error> {
    let o = st.option;
    let c = st.locked_custody;
    let unlock = contract_share(o.amount, close_quantity, o.quantity);
    if now >= o.expired_date {
        Err(Error::OptionError(OptionError::InvalidTimeError))
    } else if (o.amount as int) * (close_quantity as int) > u64::MAX {
        Err(overflow())
    } else if c.token_locked < unlock {
        Err(Error::OptionError(OptionError::InvalidLockedBalanceError))
    } else {
        match quote.refund_amount_raw {
            None => Err(overflow()),
            Some(raw0) => {
                let raw = floored_refund(raw0, quote.value_positive);
                let refund = after_close_fee(raw as int);
                if raw == 0 {
                    Err(Error::OptionError(OptionError::InvalidPayAmountError))
                } else if (raw as int) * 9 > u64::MAX {
                    Err(overflow())
                } else if c.token_owned < c.token_locked {
                    Err(overflow())
                } else if c.token_owned - c.token_locked < refund {
                    Err(Error::OptionError(OptionError::InvalidPoolBalanceError))
                } else {
                    let custody_after = Custody {
                        token_owned: (c.token_owned - refund) as u64,
                        token_locked: (c.token_locked - unlock) as u64,
                        ..c
                    };
                    if o.quantity == close_quantity {
                        Ok((refund as u64, OptionCloseState {
                            option: OptionDetail { valid: false, bought_back: now as u64, ..o },
                            closed_option: st.closed_option,
                            locked_custody: custody_after,
                        }))
                    } else {
                        match closed_record_after(st.closed_option, o, close_quantity, unlock as u64, keys, now) {
                            None => Err(overflow()),
                            Some(closed) => Ok((refund as u64, OptionCloseState {
                                option: OptionDetail {
                                    quantity: (o.quantity - close_quantity) as u64,
                                    amount: (o.amount - unlock) as u64,
                                    ..o
                                },
                                closed_option: closed,
                                locked_custody: custody_after,
                            })),
                        }
                    }
                }
            },
        }
    }
}

/// The outcome of [`close_option`]: `None` as the refund where the option is no
/// longer valid and nothing happens.
pub open spec fn close_option_outcome(
    st: OptionCloseState,
    keys: OptionCloseKeys,
    user_option_index: u64,
    params: CloseOptionParams,
    quote: CloseOptionQuote,
    now: i64,
) -> Result<(Option<u64>, OptionCloseState), Error> {
    let o = st.option;
    if keys.pay_custody != o.premium_asset {
        Err(Error::ConstraintError(ConstraintError::RequireKeysEqViolated))
    } else if keys.locked_custody != o.locked_asset {
        Err(Error::ConstraintError(ConstraintError::RequireKeysEqViolated))
    } else if user_option_index < params.option_index {
        Err(gte_violated())
    } else if params.close_quantity == 0 {
        Err(Error::OptionError(OptionError::InvalidQuantityError))
    } else if o.quantity < params.close_quantity {
        Err(Error::OptionError(OptionError::InsufficientQuantityError))
    } else if !o.valid {
        Ok((None, st))
    } else {
        match valid_close_outcome(st, keys, params.close_quantity, quote, now) {
            Err(e) => Err(e),
            Ok((refund, after)) => Ok((Some(refund), after)),
        }
    }
}

/// A share of contracts holds at most the whole amount, and all of it when every
/// contract is counted.
pub proof fn lemma_contract_share_bounds(amount: u64, part: u64, whole: u64)
    requires
        0 < part <= whole,
    ensures
        0 <= contract_share(amount, part, whole) <= amount,
        part == whole ==> contract_share(amount, part, whole) == amount,
{
    assert(0 <= contract_share(amount, part, whole) <= amount) by (nonlinear_arith)
        requires
            0 < part <= whole,
            contract_share(amount, part, whole) == (amount as int) * (part as int) / (whole as int),
    ;
    if part == whole {
        assert(contract_share(amount, part, whole) == amount) by (nonlinear_arith)
            requires
                part == whole,
                0 < whole,
                contract_share(amount, part, whole) == (amount as int) * (part as int) / (whole as int),
        ;
    }
}

/// Sells `close_quantity` contracts of a valid option back to the pool before its
/// expiry, for the refund that `quote` prices. Returns the refund to transfer, or
/// `None` where the option is no longer valid (then nothing changes). Every account
/// is left as [`close_option_outcome`] says; on an error nothing changes.
pub fn close_option(
    option: &mut OptionDetail,
    closed_option: &mut OptionDetail,
    locked_custody: &mut Custody,
    keys: OptionCloseKeys,
    user_option_index: u64,
    params: &CloseOptionParams,
    quote: CloseOptionQuote,
    current_time: i64,
) -> (r: Result<Option<u64>, Error>)
    ensures
        ({
            let st = OptionCloseState {
                option: *old(option),
                closed_option: *old(closed_option),
                locked_custody: *old(locked_custody),
            };
            match close_option_outcome(st, keys, user_option_index, *params, quote, current_time) {
                Err(e) => {
                    &&& r == Err::<Option<u64>, Error>(e)
                    &&& *final(option) == *old(option)
                    &&& *final(closed_option) == *old(closed_option)
                    &&& *final(locked_custody) == *old(locked_custody)
                },
                Ok((refund, after)) => {
                    &&& r == Ok::<Option<u64>, Error>(refund)
                    &&& *final(option) == after.option
                    &&& *final(closed_option) == after.closed_option
                    &&& *final(locked_custody) == after.locked_custody
                },
            }
        }),
{
    if keys.pay_custody != option.premium_asset {
        return Err(Error::ConstraintError(ConstraintError::RequireKeysEqViolated));
    }
    if keys.locked_custody != option.locked_asset {
        return Err(Error::ConstraintError(ConstraintError::RequireKeysEqViolated));
    }
    if user_option_index < params.option_index {
        return Err(Error::ConstraintError(ConstraintError::RequireGteViolated));
    }
    if params.close_quantity == 0 {
        return Err(Error::OptionError(OptionError::InvalidQuantityError));
    }
    if option.quantity < params.close_quantity {
        return Err(Error::OptionError(OptionError::InsufficientQuantityError));
    }
    if !option.valid {
        return Ok(None);
    }
    if current_time >= option.expired_date {
        return Err(Error::OptionError(OptionError::InvalidTimeError));
    }
    proof {
        lemma_contract_share_bounds(option.amount, params.close_quantity, option.quantity);
    }
    let scaled = crate::math::checked_mul(option.amount, params.close_quantity)?;
    let unlock_amount = scaled / option.quantity;
    if locked_custody.token_locked < unlock_amount {
        return Err(Error::OptionError(OptionError::InvalidLockedBalanceError));
    }
    let raw = match quote.refund_amount_raw {
        Some(v) => v,
        None => {
            return Err(crate::errors::math_overflow());
        },
    };
    let raw = if raw == 0 && quote.value_positive {
        1
    } else {
        raw
    };
    if raw == 0 {
        return Err(Error::OptionError(OptionError::InvalidPayAmountError));
    }
    let nine_tenths = crate::math::checked_mul(raw, 9u64)?;
    let refund_amount = nine_tenths / 10;
    let free = crate::math::checked_sub(locked_custody.token_owned, locked_custody.token_locked)?;
    if free < refund_amount {
        return Err(Error::OptionError(OptionError::InvalidPoolBalanceError));
    }
    let now_stamp = current_time as u64;
    if option.quantity == params.close_quantity {
        option.valid = false;
        option.bought_back = now_stamp;
    } else {
        if closed_option.quantity > 0 {
            let q = crate::math::checked_add(closed_option.quantity, params.close_quantity)?;
            let a = crate::math::checked_add(closed_option.amount, unlock_amount)?;
            closed_option.quantity = q;
            closed_option.amount = a;
            closed_option.bought_back = now_stamp;
        } else {
            proof {
                lemma_contract_share_bounds(option.premium, params.close_quantity, option.quantity);
            }
            let premium_scaled = crate::math::checked_mul(option.premium, params.close_quantity)?;
            closed_option.valid = false;
            closed_option.quantity = params.close_quantity;
            closed_option.amount = unlock_amount;
            closed_option.owner = option.owner;
            closed_option.index = option.index;
            closed_option.period = option.period;
            closed_option.expired_date = option.expired_date;
            closed_option.purchase_date = option.purchase_date;
            closed_option.option_type = option.option_type;
            closed_option.strike_price = option.strike_price;
            closed_option.premium_asset = option.premium_asset;
            closed_option.locked_asset = option.locked_asset;
            closed_option.pool = keys.pool;
            closed_option.custody = keys.custody;
            closed_option.premium = premium_scaled / option.quantity;
            closed_option.bought_back = now_stamp;
        }
        option.quantity = option.quantity - params.close_quantity;
        option.amount = option.amount - unlock_amount;
    }
    locked_custody.token_owned = locked_custody.token_owned - refund_amount;
    locked_custody.token_locked = locked_custody.token_locked - unlock_amount;
    Ok(Some(refund_amount))
}

/// Parameters of [`open_option`]. `strike_price` carries six decimals; `period` is
/// in days and `expired_time` is a Unix time.
#[derive(Debug, Clone)]
pub struct OpenOptionParams {
    pub amount: u64,
    pub strike_price: u64,
    pub period: u64,
    pub expired_time: u64,
    pub pool_name: String,
}

/// What the pricing says an option costs.
#[derive(Debug, Clone, Copy, PartialEq, Eq, Structural)]
pub struct OpenOptionQuote {
    /// The premium of one contract in units of the pay token, rounded down; `None`
    /// where that amount is not a `u64`.
    pub pay_amount: Option<u64>,
    /// The tokens to lock for the bought quantity (see [`option_quantity`]): the
    /// quantity in whole tokens, in token units; `None` where that is not a `u64`.
    pub locked_amount: Option<u64>,
}

/// The addresses that opening an option records.
#[derive(Debug, Clone, Copy, PartialEq, Eq, Structural)]
pub struct OptionOpenKeys {
    pub owner: AccountKey,
    pub pay_custody: AccountKey,
    pub locked_custody: AccountKey,
    pub pool: AccountKey,
    pub custody: AccountKey,
}

/// The accounts that opening an option touches.
#[derive(Debug, Clone, Copy, PartialEq, Eq, Structural)]
pub struct OptionOpenState {
    pub option: OptionDetail,
    pub user: User,
    pub pay_custody: Custody,
    pub locked_custody: Custody,
}

/// The number of contracts that `amount` buys at `pay_amount` each, rounded down;
/// the overflow error for a zero price.
pub fn option_quantity(amount: u64, pay_amount: u64) -> (r: Result<u64, Error>)
    ensures
        r == if pay_amount == 0 {
            Err::<u64, Error>(overflow())
        } else {
            Ok::<u64, Error>(amount / pay_amount)
        },
{
    if pay_amount == 0 {
        return Err(crate::errors::math_overflow());
    }
    Ok(amount / pay_amount)
}

/// The outcome of opening an option that pays `params.amount` of premium, with the
/// funding account holding `funding_balance`: the premium joins the pay custody, the
/// quoted tokens are locked (the pool must own them), and the option records its
/// terms under the trader's next index. A call is an option whose underlying custody
/// is the locked one.
pub open spec fn open_option_outcome(
    st: OptionOpenState,
    keys: OptionOpenKeys,
    funding_balance: u64,
    params: OpenOptionParams,
    quote: OpenOptionQuote,
    now: i64,
) -> Result<OptionOpenState, Error> {
    let pay = st.pay_custody;
    let locked = st.locked_custody;
    if funding_balance < params.amount {
        Err(Error::OptionError(OptionError::InvalidSignerBalanceError))
    } else {
        match quote.pay_amount {
            None => Err(overflow()),
            Some(pay_amount) => if pay_amount == 0 {
                Err(Error::OptionError(OptionError::InvalidPayAmountError))
            } else if pay.token_owned + params.amount > u64::MAX {
                Err(overflow())
            } else {
                match quote.locked_amount {
                    None => Err(overflow()),
                    Some(lock) => if locked.token_locked + lock > u64::MAX {
                        Err(overflow())
                    } else if locked.token_owned < locked.token_locked + lock {
                        Err(Error::OptionError(OptionError::InvalidPoolBalanceError))
                    } else {
                        let index = (st.user.option_index + 1) as u64;
                        Ok(OptionOpenState {
                            option: OptionDetail {
                                premium: pay_amount,
                                premium_asset: keys.pay_custody,
                                amount: params.amount,
                                quantity: params.amount / pay_amount,
                                owner: keys.owner,
                                index,
                                period: params.period,
                                expired_date: params.expired_time as i64,
                                purchase_date: now as u64,
                                option_type: if keys.custody == keys.locked_custody {
                                    0
                                } else {
                                    1
                                },
                                strike_price: params.strike_price,
                                valid: true,
                                locked_asset: keys.locked_custody,
                                pool: keys.pool,
                                custody: keys.custody,
                                ..st.option
                            },
                            user: User { option_index: index, ..st.user },
                            pay_custody: Custody { token_owned: (pay.token_owned + params.amount) as u64, ..pay },
                            locked_custody: Custody {
                                token_locked: (locked.token_locked + lock) as u64,
                                ..locked
                            },
                        })
                    },
                }
            },
        }
    }
}

/// Buys an option: the trader pays `params.amount` of premium and receives the
/// contracts that it buys at the quoted price, backed by tokens locked in the pool.
/// Every account is left as [`open_option_outcome`] says; on an error nothing
/// changes.
pub fn open_option(
    option: &mut OptionDetail,
    user: &mut User,
    pay_custody: &mut Custody,
    locked_custody: &mut Custody,
    keys: OptionOpenKeys,
    funding_balance: u64,
    params: &OpenOptionParams,
    quote: OpenOptionQuote,
    current_time: i64,
) -> (r: Result<(), Error>)
    requires
        old(user).option_index < u64::MAX,
    ensures
        ({
            let st = OptionOpenState {
                option: *old(option),
                user: *old(user),
                pay_custody: *old(pay_custody),
                locked_custody: *old(locked_custody),
            };
            match open_option_outcome(st, keys, funding_balance, *params, quote, current_time) {
                Err(e) => {
                    &&& r == Err::<(), Error>(e)
                    &&& *final(option) == *old(option)
                    &&& *final(user) == *old(user)
                    &&& *final(pay_custody) == *old(pay_custody)
                    &&& *final(locked_custody) == *old(locked_custody)
                },
                Ok(after) => {
                    &&& r == Ok::<(), Error>(())
                    &&& *final(option) == after.option
                    &&& *final(user) == after.user
                    &&& *final(pay_custody) == after.pay_custody
                    &&& *final(locked_custody) == after.locked_custody
                },
            }
        }),
{
    let option_index = user.option_index + 1;
    if funding_balance < params.amount {
        return Err(Error::OptionError(OptionError::InvalidSignerBalanceError));
    }
    let pay_amount = match quote.pay_amount {
        Some(v) => v,
        None => {
            return Err(crate::errors::math_overflow());
        },
    };
    if pay_amount == 0 {
        return Err(Error::OptionError(OptionError::InvalidPayAmountError));
    }
    let new_pay_owned = crate::math::checked_add(pay_custody.token_owned, params.amount)?;
    let quantity = option_quantity(params.amount, pay_amount)?;
    let lock = match quote.locked_amount {
        Some(v) => v,
        None => {
            return Err(crate::errors::math_overflow());
        },
    };
    let new_locked = crate::math::checked_add(locked_custody.token_locked, lock)?;
    if locked_custody.token_owned < new_locked {
        return Err(Error::OptionError(OptionError::InvalidPoolBalanceError));
    }
    pay_custody.token_owned = new_pay_owned;
    locked_custody.token_locked = new_locked;
    option.premium = pay_amount;
    option.premium_asset = keys.pay_custody;
    option.amount = params.amount;
    option.quantity = quantity;
    option.owner = keys.owner;
    option.index = option_index;
    option.period = params.period;
    option.expired_date = params.expired_time as i64;
    option.purchase_date = current_time as u64;
    option.option_type = if keys.custody == keys.locked_custody {
        0
    } else {
        1
    };
    option.strike_price = params.strike_price;
    option.valid = true;
    option.locked_asset = keys.locked_custody;
    option.pool = keys.pool;
    option.custody = keys.custody;
    user.option_index = option_index;
    Ok(())
}

/// How the premium changes when an option's terms are edited, in units of the pay
/// token; an amount is `None` where it is not a `u64`.
#[derive(Debug, Clone, Copy, PartialEq, Eq, Structural)]
pub enum PremiumAdjustment {
    /// The new terms are worth more: the trader pays the difference.
    Pay(Option<u64>),
    /// The new terms are worth less: the pool refunds the difference, less a fee.
    Refund(Option<u64>),
    /// The new terms are worth the same.
    Even,
}

/// Parameters of [`edit_option`]. The new strike and size, asked for in floating
/// point, reach the library through [`EditOptionQuote`].
#[derive(Debug, Clone)]
pub struct EditOptionParams {
    pub option_index: u64,
    pub pool_name: String,
    pub new_expiry: Option<i64>,
    pub max_additional_premium: u64,
    pub min_refund_amount: u64,
}

/// What the pricing says of the edited terms.
#[derive(Debug, Clone, Copy, PartialEq, Eq, Structural)]
pub struct EditOptionQuote {
    /// Whether a new strike or a new size was asked for.
    pub changes_strike_or_size: bool,
    /// Whether the size after the edit is above zero.
    pub size_positive: bool,
    /// Whether the strike after the edit is above zero.
    pub strike_positive: bool,
    pub adjustment: PremiumAdjustment,
    /// The strike after the edit with six decimals; `None` where it is not a `u64`.
    pub new_strike_price: Option<u64>,
    /// The number of contracts after the edit.
    pub new_quantity: u64,
}

/// The addresses that an edit checks.
#[derive(Debug, Clone, Copy, PartialEq, Eq, Structural)]
pub struct OptionEditKeys {
    pub owner: AccountKey,
    pub locked_custody: AccountKey,
}

/// The expiry after an edit.
pub open spec fn edited_expiry(option: OptionDetail, params: EditOptionParams) -> i64 {
    match params.new_expiry {
        Some(e) => e,
        None => option.expired_date,
    }
}

/// The option and the pay custody after the premium adjustment, or its error. A
/// payment must stay within `max_additional_premium` and the funding balance; a
/// refund, ninety percent of the quoted amount, must reach `min_refund_amount` and
/// lie within what the pay custody holds beyond its locked tokens.
pub open spec fn adjusted_premium(
    option: OptionDetail,
    pay: Custody,
    adjustment: PremiumAdjustment,
    params: EditOptionParams,
    funding_balance: u64,
) -> Result<(OptionDetail, Custody), Error> {
    match adjustment {
        PremiumAdjustment::Even => Ok((option, pay)),
        PremiumAdjustment::Pay(None) => Err(overflow()),
        PremiumAdjustment::Refund(None) => Err(overflow()),
        PremiumAdjustment::Pay(Some(extra)) => if params.max_additional_premium < extra {
            Err(Error::TradingError(TradingError::SlippageExceededError))
        } else if funding_balance < extra {
            Err(Error::TradingError(TradingError::InvalidSignerBalanceError))
        } else if pay.token_owned + extra > u64::MAX || option.premium + extra > u64::MAX {
            Err(overflow())
        } else {
            Ok((
                OptionDetail { premium: (option.premium + extra) as u64, ..option },
                Custody { token_owned: (pay.token_owned + extra) as u64, ..pay },
            ))
        },
        PremiumAdjustment::Refund(Some(quoted)) => {
            let refund = after_close_fee(quoted as int);
            if (quoted as int) * 9 > u64::MAX {
                Err(overflow())
            } else if refund < params.min_refund_amount {
                Err(Error::TradingError(TradingError::SlippageExceededError))
            } else if pay.token_owned < pay.token_locked {
                Err(overflow())
            } else if pay.token_owned - pay.token_locked < refund {
                Err(Error::PoolError(PoolError::InvalidPoolBalanceError))
            } else if option.premium < refund {
                Err(overflow())
            } else {
                Ok((
                    OptionDetail { premium: (option.premium - refund) as u64, ..option },
                    Custody { token_owned: (pay.token_owned - refund) as u64, ..pay },
                ))
            }
        },
    }
}

/// The error of the checks that an edit makes before it adjusts the premium: the
/// option must be valid, the owner's, backed by the named custody, unexpired at
/// `now`; the edit must change something, to a positive size and strike and an
/// expiry after `now`.
pub open spec fn edit_option_check(
    option: OptionDetail,
    keys: OptionEditKeys,
    user_option_index: u64,
    params: EditOptionParams,
    quote: EditOptionQuote,
    now: i64,
) -> Option<Error> {
    if !option.valid {
        Some(Error::OptionError(OptionError::OptionExpired))
    } else if option.owner != keys.owner || option.locked_asset != keys.locked_custody {
        Some(Error::ConstraintError(ConstraintError::RequireKeysEqViolated))
    } else if user_option_index < params.option_index {
        Some(gte_violated())
    } else if now >= option.expired_date {
        Some(Error::OptionError(OptionError::InvalidTimeError))
    } else if !quote.changes_strike_or_size && params.new_expiry is None {
        Some(Error::TradingError(TradingError::InvalidParameterError))
    } else if !quote.size_positive || !quote.strike_positive {
        Some(Error::TradingError(TradingError::InvalidParameterError))
    } else if edited_expiry(option, params) <= now {
        Some(Error::OptionError(OptionError::InvalidTimeError))
    } else {
        None
    }
}

/// The span from the purchase to the edited expiry, in seconds; the period is the
/// whole days in it.
pub open spec fn edited_span(option: OptionDetail, params: EditOptionParams) -> int {
    edited_expiry(option, params) - (option.purchase_date as i64)
}

/// The outcome of an edit: the option and the pay custody after, or the error. The
/// premium is adjusted as the quote says; the option takes the new strike, expiry
/// and quantity, `now` as its update time, and as period the whole days from its
/// purchase to the new expiry.
pub open spec fn edit_option_outcome(
    option: OptionDetail,
    pay: Custody,
    keys: OptionEditKeys,
    user_option_index: u64,
    params: EditOptionParams,
    quote: EditOptionQuote,
    funding_balance: u64,
    now: i64,
) -> Result<(OptionDetail, Custody), Error> {
    match edit_option_check(option, keys, user_option_index, params, quote, now) {
        Some(e) => Err(e),
        None => match adjusted_premium(option, pay, quote.adjustment, params, funding_balance) {
            Err(e) => Err(e),
            Ok((o, c)) => match quote.new_strike_price {
                None => Err(overflow()),
                Some(strike) => Ok((
                    OptionDetail {
                        strike_price: strike,
                        expired_date: edited_expiry(option, params),
                        quantity: quote.new_quantity,
                        last_update_time: now,
                        period: trunc_div(edited_span(option, params), 86400) as u64,
                        ..o
                    },
                    c,
                )),
            },
        },
    }
}

/// Changes the strike, expiry or size of a valid option before it expires; the
/// trader pays for terms worth more and is refunded (less a fee) for terms worth
/// less, as the quote prices them. Returns the adjustment made. The option and the
/// pay custody are left as [`edit_option_outcome`] says; on an error nothing changes.
pub fn edit_option(
    option: &mut OptionDetail,
    pay_custody: &mut Custody,
    keys: OptionEditKeys,
    user_option_index: u64,
    params: &EditOptionParams,
    quote: EditOptionQuote,
    funding_balance: u64,
    current_time: i64,
) -> (r: Result<PremiumAdjustment, Error>)
    requires
        edit_option_check(*old(option), keys, user_option_index, *params, quote, current_time) is None ==> i64::MIN
            <= edited_span(*old(option), *params) <= i64::MAX,
    ensures
        match edit_option_outcome(
            *old(option),
            *old(pay_custody),
            keys,
            user_option_index,
            *params,
            quote,
            funding_balance,
            current_time,
        ) {
            Err(e) => {
                &&& r == Err::<PremiumAdjustment, Error>(e)
                &&& *final(option) == *old(option)
                &&& *final(pay_custody) == *old(pay_custody)
            },
            Ok((o, c)) => {
                &&& r == Ok::<PremiumAdjustment, Error>(quote.adjustment)
                &&& *final(option) == o
                &&& *final(pay_custody) == c
            },
        },
{
    if !option.valid {
        return Err(Error::OptionError(OptionError::OptionExpired));
    }
    if option.owner != keys.owner || option.locked_asset != keys.locked_custody {
        return Err(Error::ConstraintError(ConstraintError::RequireKeysEqViolated));
    }
    if user_option_index < params.option_index {
        return Err(Error::ConstraintError(ConstraintError::RequireGteViolated));
    }
    if current_time >= option.expired_date {
        return Err(Error::OptionError(OptionError::InvalidTimeError));
    }
    if !quote.changes_strike_or_size && params.new_expiry.is_none() {
        return Err(Error::TradingError(TradingError::InvalidParameterError));
    }
    if !quote.size_positive || !quote.strike_positive {
        return Err(Error::TradingError(TradingError::InvalidParameterError));
    }
    let new_expiry = match params.new_expiry {
        Some(e) => e,
        None => option.expired_date,
    };
    if new_expiry <= current_time {
        return Err(Error::OptionError(OptionError::InvalidTimeError));
    }
    let (new_premium, new_owned) = match quote.adjustment {
        PremiumAdjustment::Even => (option.premium, pay_custody.token_owned),
        PremiumAdjustment::Pay(amount) => {
            let extra = match amount {
                Some(v) => v,
                None => {
                    return Err(crate::errors::math_overflow());
                },
            };
            if params.max_additional_premium < extra {
                return Err(Error::TradingError(TradingError::SlippageExceededError));
            }
            if funding_balance < extra {
                return Err(Error::TradingError(TradingError::InvalidSignerBalanceError));
            }
            let owned = crate::math::checked_add(pay_custody.token_owned, extra)?;
            let premium = crate::math::checked_add(option.premium, extra)?;
            (premium, owned)
        },
        PremiumAdjustment::Refund(amount) => {
            let quoted = match amount {
                Some(v) => v,
                None => {
                    return Err(crate::errors::math_overflow());
                },
            };
            let nine_tenths = crate::math::checked_mul(quoted, 9u64)?;
            let refund = nine_tenths / 10;
            if refund < params.min_refund_amount {
                return Err(Error::TradingError(TradingError::SlippageExceededError));
            }
            let free = crate::math::checked_sub(pay_custody.token_owned, pay_custody.token_locked)?;
            if free < refund {
                return Err(Error::PoolError(PoolError::InvalidPoolBalanceError));
            }
            let premium = crate::math::checked_sub(option.premium, refund)?;
            (premium, pay_custody.token_owned - refund)
        },
    };
    let strike = match quote.new_strike_price {
        Some(v) => v,
        None => {
            return Err(crate::errors::math_overflow());
        },
    };
    let span = new_expiry - (option.purchase_date as i64);
    let days = crate::math::checked_div(span, 86400i64)?;
    pay_custody.token_owned = new_owned;
    option.premium = new_premium;
    option.strike_price = strike;
    option.expired_date = new_expiry;
    option.quantity = quote.new_quantity;
    option.last_update_time = current_time;
    option.period = days as u64;
    Ok(quote.adjustment)
}

/// A take-profit or stop-loss price asked for in floating point, as the library
/// sees it.
#[derive(Debug, Clone, Copy, PartialEq, Eq, Structural)]
pub enum RequestedPrice {
    /// No price: the option's price is cleared.
    Unset,
    Given {
        /// Whether the price is above zero.
        positive: bool,
        /// How the price compares with the option's strike.
        vs_strike: PriceOrder,
        /// The price with six decimals; `None` where it is not a `u64`.
        scaled: Option<u64>,
    },
}

/// Parameters of [`set_option_tp_sl`].
#[derive(Debug, Clone)]
pub struct SetOptionTpSlParams {
    pub option_index: u64,
    pub pool_name: String,
    pub take_profit_price: RequestedPrice,
    pub stop_loss_price: RequestedPrice,
}

/// The price that a request sets, or its error: a given price must be above zero,
/// on the side of the strike that `side_ok` accepts, and fit six decimals in `u64`.
pub open spec fn requested_price(req: RequestedPrice, side_ok: bool, wrong_side: Error) -> Result<Option<u64>, Error> {
    match req {
        RequestedPrice::Unset => Ok(None),
        RequestedPrice::Given { positive, vs_strike, scaled } => if !positive {
            Err(Error::TradingError(TradingError::InvalidPrice))
        } else if !side_ok {
            Err(wrong_side)
        } else {
            match scaled {
                None => Err(overflow()),
                Some(p) => Ok(Some(p)),
            }
        },
    }
}

/// The side of the strike on which `req` lies, where it is given.
pub open spec fn requested_side(req: RequestedPrice) -> PriceOrder {
    match req {
        RequestedPrice::Given { vs_strike, .. } => vs_strike,
        RequestedPrice::Unset => PriceOrder::Equal,
    }
}

/// The outcome of setting an option's take-profit and stop-loss prices at `now`:
/// the option after, or the error. The option must be the owner's, valid, not
/// executed and unexpired; a take-profit lies beyond the strike in the holder's
/// favour (above it for a call, below for a put), a stop-loss on the other side, and
/// the two must not cross.
pub open spec fn set_option_tp_sl_outcome(
    option: OptionDetail,
    owner: AccountKey,
    params: SetOptionTpSlParams,
    now: i64,
) -> Result<OptionDetail, Error> {
    let call = option.option_type == 0;
    if option.owner != owner {
        Err(Error::TradingError(TradingError::Unauthorized))
    } else if !option.valid {
        Err(Error::OptionError(OptionError::InvalidOption))
    } else if option.executed {
        Err(Error::OptionError(OptionError::OptionExecuted))
    } else if now >= option.expired_date {
        Err(Error::OptionError(OptionError::OptionExpired))
    } else {
        match requested_price(
            params.take_profit_price,
            option_take_profit_ok(option.option_type, requested_side(params.take_profit_price)),
            Error::TradingError(TradingError::InvalidTakeProfitPrice),
        ) {
            Err(e) => Err(e),
            Ok(tp) => match requested_price(
                params.stop_loss_price,
                option_stop_loss_ok(option.option_type, requested_side(params.stop_loss_price)),
                Error::TradingError(TradingError::InvalidStopLossPrice),
            ) {
                Err(e) => Err(e),
                Ok(sl) => if tp is Some && sl is Some && (if call {
                    tp.unwrap() <= sl.unwrap()
                } else {
                    tp.unwrap() >= sl.unwrap()
                }) {
                    Err(Error::TradingError(TradingError::InvalidPriceRange))
                } else {
                    Ok(OptionDetail {
                        take_profit_price: tp,
                        stop_loss_price: sl,
                        last_update_time: now,
                        ..option
                    })
                },
            },
        }
    }
}

fn resolve_requested_price(req: RequestedPrice, take_profit: bool, option_type: u8) -> (r: Result<Option<u64>, Error>)
    ensures
        r == if take_profit {
            requested_price(
                req,
                option_take_profit_ok(option_type, requested_side(req)),
                Error::TradingError(TradingError::InvalidTakeProfitPrice),
            )
        } else {
            requested_price(
                req,
                option_stop_loss_ok(option_type, requested_side(req)),
                Error::TradingError(TradingError::InvalidStopLossPrice),
            )
        },
{
    match req {
        RequestedPrice::Unset => Ok(None),
        RequestedPrice::Given { positive, vs_strike, scaled } => {
            if !positive {
                return Err(Error::TradingError(TradingError::InvalidPrice));
            }
            let wanted = if (option_type == 0) == take_profit {
                PriceOrder::Above
            } else {
                PriceOrder::Below
            };
            if vs_strike != wanted {
                return Err(
                    if take_profit {
                        Error::TradingError(TradingError::InvalidTakeProfitPrice)
                    } else {
                        Error::TradingError(TradingError::InvalidStopLossPrice)
                    },
                );
            }
            match scaled {
                None => Err(crate::errors::math_overflow()),
                Some(p) => Ok(Some(p)),
            }
        },
    }
}

/// Sets (or clears) an option's take-profit and stop-loss prices as `owner`. The
/// option is left as [`set_option_tp_sl_outcome`] says; on an error it is unchanged.
pub fn set_option_tp_sl(
    option: &mut OptionDetail,
    owner: AccountKey,
    params: &SetOptionTpSlParams,
    current_time: i64,
) -> (r: Result<(), Error>)
    ensures
        match set_option_tp_sl_outcome(*old(option), owner, *params, current_time) {
            Err(e) => r == Err::<(), Error>(e) && *final(option) == *old(option),
            Ok(o) => r == Ok::<(), Error>(()) && *final(option) == o,
        },
{
    if option.owner != owner {
        return Err(Error::TradingError(TradingError::Unauthorized));
    }
    if !option.valid {
        return Err(Error::OptionError(OptionError::InvalidOption));
    }
    if option.executed {
        return Err(Error::OptionError(OptionError::OptionExecuted));
    }
    if current_time >= option.expired_date {
        return Err(Error::OptionError(OptionError::OptionExpired));
    }
    let tp = resolve_requested_price(params.take_profit_price, true, option.option_type)?;
    let sl = resolve_requested_price(params.stop_loss_price, false, option.option_type)?;
    if let (Some(t), Some(s)) = (tp, sl) {
        let crossed = if option.option_type == 0 {
            t <= s
        } else {
            t >= s
        };
        if crossed {
            return Err(Error::TradingError(TradingError::InvalidPriceRange));
        }
    }
    option.take_profit_price = tp;
    option.stop_loss_price = sl;
    option.last_update_time = current_time;
    Ok(())
}

} // verus!
