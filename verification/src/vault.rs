//! A single liquidity vault of wrapped SOL and USDC, with options written against
//! it: covered calls lock SOL, cash-secured puts lock USDC.
use crate::errors::{Error, OptionError, PoolError};
use crate::state::PriceOrder;
use vstd::prelude::*;

verus! {

/// The vault's holdings: what it holds of each token and how much of that backs
/// written options.
#[derive(Debug, Clone, Copy, PartialEq, Eq, Structural)]
pub struct Lp {
    pub sol_amount: u64,
    pub usdc_amount: u64,
    pub locked_sol_amount: u64,
    pub locked_usdc_amount: u64,
    pub bump: u8,
}

/// A liquidity provider or option holder of the vault.
#[derive(Debug, Clone, Copy, PartialEq, Eq, Structural)]
pub struct VaultUser {
    pub liquidity_wsol: u64,
    pub option_index: u64,
}

/// An option written against the vault. A call (`option_type` true) locks
/// `sol_amount`; a put locks `usdc_amount`. The strike is in whole dollars.
#[derive(Debug, Clone, Copy, PartialEq, Eq, Structural)]
pub struct VaultOption {
    pub index: u64,
    pub sol_amount: u64,
    pub usdc_amount: u64,
    pub premium: u64,
    pub premium_unit: bool,
    pub option_type: bool,
    pub strike_price: u64,
    pub expired_date: u64,
    pub valid: bool,
    pub bought_back: u64,
    pub exercised: u64,
    pub profit: u64,
    /// Whether the profit is paid in SOL (true) or USDC.
    pub profit_unit: bool,
}

/// Deposits `amount` of wrapped SOL from a signer holding `signer_balance` into the
/// vault, credited to `user`. On an error nothing changes.
pub fn deposit_wsol(lp: &mut Lp, user: &mut VaultUser, signer_balance: u64, amount: u64) -> (r: Result<(), Error>)
    requires
        signer_balance >= amount ==> {
            &&& old(lp).sol_amount + amount <= u64::MAX
            &&& old(user).liquidity_wsol + amount <= u64::MAX
        },
    ensures
        signer_balance < amount ==> {
            &&& r == Err::<(), Error>(Error::PoolError(PoolError::InvalidSignerBalanceError))
            &&& *final(lp) == *old(lp)
            &&& *final(user) == *old(user)
        },
        signer_balance >= amount ==> {
            &&& r == Ok::<(), Error>(())
            &&& *final(lp) == (Lp { sol_amount: (old(lp).sol_amount + amount) as u64, ..*old(lp) })
            &&& *final(user) == (VaultUser {
                liquidity_wsol: (old(user).liquidity_wsol + amount) as u64,
                ..*old(user)
            })
        },
{
    if signer_balance < amount {
        return Err(Error::PoolError(PoolError::InvalidSignerBalanceError));
    }
    lp.sol_amount = lp.sol_amount + amount;
    user.liquidity_wsol = user.liquidity_wsol + amount;
    Ok(())
}

/// The error of withdrawing `amount` of wrapped SOL from a vault whose token account
/// holds `vault_balance` for a user who deposited `deposited`.
pub open spec fn withdraw_wsol_error(vault_balance: u64, deposited: u64, amount: u64) -> Option<Error> {
    if vault_balance < amount {
        Some(Error::PoolError(PoolError::InvalidPoolBalanceError))
    } else if deposited < amount {
        Some(Error::PoolError(PoolError::InvalidWithdrawError))
    } else {
        None
    }
}

/// Withdraws `amount` of wrapped SOL that `user` deposited. On an error nothing
/// changes.
pub fn withdraw_wsol(lp: &mut Lp, user: &mut VaultUser, vault_balance: u64, amount: u64) -> (r: Result<(), Error>)
    requires
        withdraw_wsol_error(vault_balance, old(user).liquidity_wsol, amount) is None ==> old(lp).sol_amount >= amount,
    ensures
        match withdraw_wsol_error(vault_balance, old(user).liquidity_wsol, amount) {
            Some(e) => r == Err::<(), Error>(e) && *final(lp) == *old(lp) && *final(user) == *old(user),
            None => {
                &&& r == Ok::<(), Error>(())
                &&& *final(lp) == (Lp { sol_amount: (old(lp).sol_amount - amount) as u64, ..*old(lp) })
                &&& *final(user) == (VaultUser {
                    liquidity_wsol: (old(user).liquidity_wsol - amount) as u64,
                    ..*old(user)
                })
            },
        },
{
    if vault_balance < amount {
        return Err(Error::PoolError(PoolError::InvalidPoolBalanceError));
    }
    if user.liquidity_wsol < amount {
        return Err(Error::PoolError(PoolError::InvalidWithdrawError));
    }
    lp.sol_amount = lp.sol_amount - amount;
    user.liquidity_wsol = user.liquidity_wsol - amount;
    Ok(())
}

/// The vault after the tokens locked for `option` are released back to it, or
/// `None` where fewer are locked.
pub open spec fn released(lp: Lp, option: VaultOption) -> Option<Lp> {
    if option.option_type {
        if lp.locked_sol_amount < option.sol_amount {
            None
        } else {
            Some(Lp {
                locked_sol_amount: (lp.locked_sol_amount - option.sol_amount) as u64,
                sol_amount: (lp.sol_amount + option.sol_amount) as u64,
                ..lp
            })
        }
    } else if lp.locked_usdc_amount < option.usdc_amount {
        None
    } else {
        Some(Lp {
            locked_usdc_amount: (lp.locked_usdc_amount - option.usdc_amount) as u64,
            usdc_amount: (lp.usdc_amount + option.usdc_amount) as u64,
            ..lp
        })
    }
}

/// Whether releasing the tokens of `option` keeps the vault's total within `u64`.
pub open spec fn release_fits(lp: Lp, option: VaultOption) -> bool {
    if option.option_type {
        lp.sol_amount + option.sol_amount <= u64::MAX
    } else {
        lp.usdc_amount + option.usdc_amount <= u64::MAX
    }
}

fn release(lp: &mut Lp, option: &VaultOption) -> (r: Result<(), Error>)
    requires
        released(*old(lp), *option) is Some ==> release_fits(*old(lp), *option),
    ensures
        match released(*old(lp), *option) {
            None => r == Err::<(), Error>(Error::OptionError(OptionError::InvalidLockedBalanceError)) && *final(lp) == *old(lp),
            Some(l) => r == Ok::<(), Error>(()) && *final(lp) == l,
        },
{
    if option.option_type {
        if lp.locked_sol_amount < option.sol_amount {
            return Err(Error::OptionError(OptionError::InvalidLockedBalanceError));
        }
        lp.locked_sol_amount = lp.locked_sol_amount - option.sol_amount;
        lp.sol_amount = lp.sol_amount + option.sol_amount;
    } else {
        if lp.locked_usdc_amount < option.usdc_amount {
            return Err(Error::OptionError(OptionError::InvalidLockedBalanceError));
        }
        lp.locked_usdc_amount = lp.locked_usdc_amount - option.usdc_amount;
        lp.usdc_amount = lp.usdc_amount + option.usdc_amount;
    }
    Ok(())
}

/// The vault's holding of the token in which `option` is settled.
pub open spec fn holding(lp: Lp, call: bool) -> u64 {
    if call {
        lp.sol_amount
    } else {
        lp.usdc_amount
    }
}

/// The outcome of selling a valid `option` back to the vault at `now`, with the
/// vault's token account of the option's token holding `vault_balance`: the amount
/// paid back (ninety percent of the premium, rounded down) and the vault and option
/// after, or the error. The locked tokens are released first.
pub open spec fn buy_back_outcome(lp: Lp, option: VaultOption, vault_balance: u64, now: i64) -> Result<(u64, Lp, VaultOption), Error> {
    let amount = ((option.premium as int) * 9 / 10) as u64;
    match released(lp, option) {
        None => Err(Error::OptionError(OptionError::InvalidLockedBalanceError)),
        Some(l) => if vault_balance < amount {
            Err(Error::OptionError(OptionError::InvalidPoolBalanceError))
        } else {
            let paid = if option.option_type {
                Lp { sol_amount: (l.sol_amount - amount) as u64, ..l }
            } else {
                Lp { usdc_amount: (l.usdc_amount - amount) as u64, ..l }
            };
            Ok((amount, paid, VaultOption { valid: false, bought_back: now as u64, ..option }))
        },
    }
}

/// Sells option `option_index` back to the vault for ninety percent of its premium.
/// Returns the amount paid back, or `None` where the option is no longer valid (then
/// nothing changes). On an error nothing changes.
pub fn buy_option(
    lp: &mut Lp,
    option: &mut VaultOption,
    option_index: u64,
    vault_balance: u64,
    current_time: i64,
) -> (r: Result<Option<u64>, Error>)
    requires
        option_index == old(option).index && old(option).valid ==> {
            &&& (old(option).premium as int) * 9 <= u64::MAX
            &&& released(*old(lp), *old(option)) is Some ==> release_fits(*old(lp), *old(option))
            &&& released(*old(lp), *old(option)) matches Some(l) ==> (vault_balance >= (old(option).premium as int)
                * 9 / 10 ==> holding(l, old(option).option_type) >= (old(option).premium as int) * 9 / 10)
        },
    ensures
        option_index != old(option).index ==> {
            &&& r == Err::<Option<u64>, Error>(Error::OptionError(OptionError::InvalidOptionIndexError))
            &&& *final(lp) == *old(lp)
            &&& *final(option) == *old(option)
        },
        option_index == old(option).index && !old(option).valid ==> {
            &&& r == Ok::<Option<u64>, Error>(None)
            &&& *final(lp) == *old(lp)
            &&& *final(option) == *old(option)
        },
        option_index == old(option).index && old(option).valid ==> match buy_back_outcome(
            *old(lp),
            *old(option),
            vault_balance,
            current_time,
        ) {
            Err(e) => r == Err::<Option<u64>, Error>(e) && *final(lp) == *old(lp) && *final(option) == *old(option),
            Ok((amount, l, o)) => r == Ok::<Option<u64>, Error>(Some(amount)) && *final(lp) == l && *final(option) == o,
        },
{
    if option_index != option.index {
        return Err(Error::OptionError(OptionError::InvalidOptionIndexError));
    }
    if !option.valid {
        return Ok(None);
    }
    let amount = option.premium * 9 / 10;
    let before = *lp;
    release(lp, option)?;
    if vault_balance < amount {
        *lp = before;
        return Err(Error::OptionError(OptionError::InvalidPoolBalanceError));
    }
    if option.option_type {
        lp.sol_amount = lp.sol_amount - amount;
    } else {
        lp.usdc_amount = lp.usdc_amount - amount;
    }
    option.valid = false;
    option.bought_back = current_time as u64;
    Ok(Some(amount))
}

/// How an option ends at expiry, given how the settlement price compares with its
/// strike: a call above the strike or a put below it pays out.
pub open spec fn expires_in_the_money(option: VaultOption, price_vs_strike: PriceOrder) -> bool {
    (price_vs_strike == PriceOrder::Above && option.option_type)
        || (price_vs_strike == PriceOrder::Below && !option.option_type)
}

/// Settles option `option_index` after its expiry at a price that compares with the
/// strike as `price_vs_strike`. An option in the money pays `profit` (which the
/// pricing computed) in its locked token and records the time of exercise; any
/// other option ends worthless. Either way it stops being valid and its locked
/// tokens return to the vault. On an error nothing changes.
pub fn expire_option(
    lp: &mut Lp,
    option: &mut VaultOption,
    option_index: u64,
    current_time: i64,
    price_vs_strike: PriceOrder,
    profit: u64,
) -> (r: Result<(), Error>)
    requires
        (current_time as u64) > old(option).expired_date && option_index == old(option).index && released(
            *old(lp),
            *old(option),
        ) is Some ==> release_fits(*old(lp), *old(option)),
    ensures
        ({
            let o = *old(option);
            if (current_time as u64) <= o.expired_date {
                r == Err::<(), Error>(Error::OptionError(OptionError::InvalidTimeError))
                    && *final(lp) == *old(lp) && *final(option) == o
            } else if option_index != o.index {
                r == Err::<(), Error>(Error::OptionError(OptionError::InvalidOptionIndexError))
                    && *final(lp) == *old(lp) && *final(option) == o
            } else {
                match released(*old(lp), o) {
                    None => r == Err::<(), Error>(Error::OptionError(OptionError::InvalidLockedBalanceError))
                        && *final(lp) == *old(lp) && *final(option) == o,
                    Some(l) => {
                        &&& r == Ok::<(), Error>(())
                        &&& *final(lp) == l
                        &&& *final(option) == if expires_in_the_money(o, price_vs_strike) {
                            VaultOption {
                                exercised: current_time as u64,
                                valid: false,
                                profit,
                                profit_unit: o.option_type,
                                ..o
                            }
                        } else {
                            VaultOption { valid: false, profit: 0, ..o }
                        }
                    },
                }
            }
        }),
{
    if (current_time as u64) <= option.expired_date {
        return Err(Error::OptionError(OptionError::InvalidTimeError));
    }
    if option_index != option.index {
        return Err(Error::OptionError(OptionError::InvalidOptionIndexError));
    }
    release(lp, option)?;
    let in_the_money = (price_vs_strike == PriceOrder::Above && option.option_type)
        || (price_vs_strike == PriceOrder::Below && !option.option_type);
    if in_the_money {
        option.exercised = current_time as u64;
        option.valid = false;
        option.profit = profit;
        option.profit_unit = option.option_type;
    } else {
        option.valid = false;
        option.profit = 0;
    }
    Ok(())
}

/// The error of exercising `option` at `now` at an oracle price that compares with
/// the strike as `price_vs_strike`: the index must match, the option must not have
/// expired, and the price must be at or beyond the strike (at or above it for a
/// call, at or below it for a put).
pub open spec fn exercise_error(option: VaultOption, option_index: u64, now: i64, price_vs_strike: PriceOrder) -> Option<Error> {
    if option_index != option.index {
        Some(Error::OptionError(OptionError::InvalidOptionIndexError))
    } else if option.expired_date <= now as u64 {
        Some(Error::OptionError(OptionError::InvalidTimeError))
    } else if (option.option_type && price_vs_strike == PriceOrder::Below) || (!option.option_type
        && price_vs_strike == PriceOrder::Above) {
        Some(Error::OptionError(OptionError::InvalidPriceRequirementError))
    } else {
        None
    }
}

/// Exercises option `option_index` before its expiry, paying `profit` (which the
/// pricing computed) in its locked token. The locked tokens return to the vault and
/// the option is spent. On an error nothing changes.
pub fn exercise_option(
    lp: &mut Lp,
    option: &mut VaultOption,
    option_index: u64,
    current_time: i64,
    price_vs_strike: PriceOrder,
    profit: u64,
) -> (r: Result<(), Error>)
    requires
        exercise_error(*old(option), option_index, current_time, price_vs_strike) is None && released(
            *old(lp),
            *old(option),
        ) is Some ==> release_fits(*old(lp), *old(option)),
    ensures
        ({
            let o = *old(option);
            match exercise_error(o, option_index, current_time, price_vs_strike) {
                Some(e) => r == Err::<(), Error>(e) && *final(lp) == *old(lp) && *final(option) == o,
                None => match released(*old(lp), o) {
                    None => r == Err::<(), Error>(Error::OptionError(OptionError::InvalidLockedBalanceError))
                        && *final(lp) == *old(lp) && *final(option) == o,
                    Some(l) => {
                        &&& r == Ok::<(), Error>(())
                        &&& *final(lp) == l
                        &&& *final(option) == (VaultOption {
                            exercised: current_time as u64,
                            valid: false,
                            profit,
                            profit_unit: o.option_type,
                            ..o
                        })
                    },
                },
            }
        }),
{
    if option_index != option.index {
        return Err(Error::OptionError(OptionError::InvalidOptionIndexError));
    }
    if option.expired_date <= current_time as u64 {
        return Err(Error::OptionError(OptionError::InvalidTimeError));
    }
    let below = price_vs_strike == PriceOrder::Below;
    let above = price_vs_strike == PriceOrder::Above;
    if (option.option_type && below) || (!option.option_type && above) {
        return Err(Error::OptionError(OptionError::InvalidPriceRequirementError));
    }
    release(lp, option)?;
    option.exercised = current_time as u64;
    option.valid = false;
    option.profit = profit;
    option.profit_unit = option.option_type;
    Ok(())
}

/// The terms of an option written against the vault, as its pricing set them.
#[derive(Debug, Clone, Copy, PartialEq, Eq, Structural)]
pub struct VaultOptionTerms {
    /// The premium paid, in token units.
    pub premium: u64,
    /// Whether the premium is paid in SOL (a call) or USDC.
    pub premium_unit: bool,
    pub strike_price: u64,
    pub expired_date: u64,
}

/// Records option `option_index` that writes `amount` of SOL on `terms`, and makes
/// it the user's latest option.
pub fn sell_option(
    option: &mut VaultOption,
    user: &mut VaultUser,
    amount: u64,
    option_index: u64,
    terms: VaultOptionTerms,
)
    ensures
        *final(option) == (VaultOption {
            index: option_index,
            sol_amount: amount,
            expired_date: terms.expired_date,
            strike_price: terms.strike_price,
            bought_back: 0,
            premium: terms.premium,
            premium_unit: terms.premium_unit,
            ..*old(option)
        }),
        *final(user) == (VaultUser { option_index, ..*old(user) }),
{
    option.index = option_index;
    option.sol_amount = amount;
    option.expired_date = terms.expired_date;
    option.strike_price = terms.strike_price;
    option.bought_back = 0;
    option.premium = terms.premium;
    option.premium_unit = terms.premium_unit;
    user.option_index = option_index;
}

} // verus!
