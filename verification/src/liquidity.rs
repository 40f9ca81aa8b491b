//! Liquidity providers: depositing a token for pool shares (LP tokens) and redeeming
//! shares for a token, and the name and symbol of a pool's LP token.
use crate::errors::{ContractError, Error, overflow};
use crate::math::{checked_add, checked_as_u64, checked_div, checked_mul, checked_sub};
use crate::registry::{first_index, get_token_id, unsupported_token, PoolTokens};
use crate::state::{AccountKey, Custody};
use vstd::prelude::*;

verus! {

/// Parameters of [`add_liquidity`].
#[derive(Debug, Clone)]
pub struct AddLiquidityParams {
    pub amount_in: u64,
    pub min_lp_amount_out: u64,
    pub pool_name: String,
}

/// What the pool's pricing says of a deposit.
#[derive(Debug, Clone, Copy, PartialEq, Eq, Structural)]
pub struct AddLiquidityQuote {
    /// The fee charged on the deposit, in token units.
    pub fee_amount: u64,
    /// The pool's assets under management in dollars (six decimals), counting the
    /// deposit.
    pub pool_amount_usd: u128,
    /// The dollar value (six decimals) of the deposit less the fee.
    pub token_amount_usd: u64,
}

/// The LP tokens minted for a deposit worth `token_amount_usd` into a pool worth
/// `pool_amount_usd` with `lp_supply` tokens out: the deposit's share of the pool,
/// rounded down; the dollar value itself for an empty pool. `None` where the
/// amount is not a `u64`.
pub open spec fn lp_tokens_for(token_amount_usd: u64, pool_amount_usd: u128, lp_supply: u64) -> Option<u64> {
    if pool_amount_usd == 0 {
        Some(token_amount_usd)
    } else {
        let v = (token_amount_usd as int) * (lp_supply as int) / (pool_amount_usd as int);
        if v <= u64::MAX {
            Some(v as u64)
        } else {
            None
        }
    }
}

/// The outcome of a deposit of `params.amount_in` into the custody at `custody_key`:
/// the LP tokens minted and the custody after, or the error. The pool must hold the
/// token; the deposit less the fee (at least one unit) joins the custody.
pub open spec fn add_liquidity_outcome(
    custody: Custody,
    custodies: Seq<AccountKey>,
    custody_key: AccountKey,
    amount_in: u64,
    quote: AddLiquidityQuote,
    lp_supply: u64,
) -> Result<(u64, Custody), Error> {
    if amount_in == 0 {
        Err(Error::InvalidArgument)
    } else if first_index(custodies, custody_key) is None {
        Err(unsupported_token())
    } else if amount_in < quote.fee_amount {
        Err(overflow())
    } else if amount_in - quote.fee_amount < 1 {
        Err(Error::ContractError(ContractError::InsufficientAmountReturned))
    } else {
        match lp_tokens_for(quote.token_amount_usd, quote.pool_amount_usd, lp_supply) {
            None => Err(overflow()),
            Some(lp) => if custody.token_owned + (amount_in - quote.fee_amount) > u64::MAX {
                Err(overflow())
            } else {
                Ok((lp, Custody {
                    token_owned: (custody.token_owned + (amount_in - quote.fee_amount)) as u64,
                    ..custody
                }))
            },
        }
    }
}

/// Deposits `params.amount_in` of the custody's token for LP tokens, priced by
/// `quote`, with `lp_supply` LP tokens out before. Returns the LP tokens to mint.
/// The custody is left as [`add_liquidity_outcome`] says; on an error it is
/// unchanged.
pub fn add_liquidity(
    custody: &mut Custody,
    tokens: &PoolTokens,
    custody_key: AccountKey,
    params: &AddLiquidityParams,
    quote: AddLiquidityQuote,
    lp_supply: u64,
) -> (r: Result<u64, Error>)
    ensures
        match add_liquidity_outcome(
            *old(custody),
            tokens.custodies@,
            custody_key,
            params.amount_in,
            quote,
            lp_supply,
        ) {
            Err(e) => r == Err::<u64, Error>(e) && *final(custody) == *old(custody),
            Ok((lp, c)) => r == Ok::<u64, Error>(lp) && *final(custody) == c,
        },
{
    if params.amount_in == 0 {
        return Err(Error::InvalidArgument);
    }
    let _token_id = get_token_id(tokens, custody_key)?;
    let deposit_amount = checked_sub(params.amount_in, quote.fee_amount)?;
    if deposit_amount < 1 {
        return Err(Error::ContractError(ContractError::InsufficientAmountReturned));
    }
    let lp_amount = if quote.pool_amount_usd == 0 {
        quote.token_amount_usd
    } else {
        proof {
            assert((quote.token_amount_usd as int) * (lp_supply as int) <= u128::MAX) by (nonlinear_arith)
                requires
                    quote.token_amount_usd <= u64::MAX,
                    lp_supply <= u64::MAX,
            ;
        }
        let product = checked_mul(quote.token_amount_usd as u128, lp_supply as u128)?;
        let share = checked_div(product, quote.pool_amount_usd)?;
        checked_as_u64(share)?
    };
    let new_owned = checked_add(custody.token_owned, deposit_amount)?;
    custody.token_owned = new_owned;
    Ok(lp_amount)
}

/// Parameters of [`remove_liquidity`].
#[derive(Debug, Clone)]
pub struct RemoveLiquidityParams {
    pub lp_amount_in: u64,
    pub min_amount_out: u64,
    pub pool_name: String,
}

/// What the pool's pricing says of a redemption.
#[derive(Debug, Clone, Copy, PartialEq, Eq, Structural)]
pub struct RemoveLiquidityQuote {
    /// The token units that the redeemed dollars buy at the oracle price (see
    /// [`redemption_usd`]).
    pub remove_amount: u64,
    /// The fee charged on them, in token units.
    pub fee_amount: u64,
    /// Whether the pool's token ratios stay within bounds after the withdrawal.
    pub token_ratio_ok: bool,
}

/// The dollars (six decimals) that `lp_amount_in` of `lp_supply` LP tokens redeem
/// from a pool worth `pool_amount_usd`, rounded down; none for an empty supply or
/// where the amount leaves `u64`.
pub open spec fn redemption_usd_value(pool_amount_usd: u128, lp_amount_in: u64, lp_supply: u64) -> Option<u64> {
    let product = (pool_amount_usd as int) * (lp_amount_in as int);
    if product > u128::MAX || lp_supply == 0 {
        None
    } else if product / (lp_supply as int) > u64::MAX {
        None
    } else {
        Some((product / (lp_supply as int)) as u64)
    }
}

/// The dollars that `lp_amount_in` LP tokens redeem.
pub fn redemption_usd(pool_amount_usd: u128, lp_amount_in: u64, lp_supply: u64) -> (r: Result<u64, Error>)
    ensures
        r == match redemption_usd_value(pool_amount_usd, lp_amount_in, lp_supply) {
            Some(v) => Ok::<u64, Error>(v),
            None => Err::<u64, Error>(overflow()),
        },
{
    let product = checked_mul(pool_amount_usd, lp_amount_in as u128)?;
    let share = checked_div(product, lp_supply as u128)?;
    checked_as_u64(share)
}

/// The result of a redemption.
#[derive(Debug, Clone, Copy, PartialEq, Eq, Structural)]
pub struct LiquidityRemoval {
    /// The dollars redeemed.
    pub remove_amount_usd: u64,
    /// The token units sent to the provider: the redeemed amount less the fee.
    pub transfer_amount: u64,
}

/// The outcome of redeeming `lp_amount_in` LP tokens for the custody's token: the
/// removal and the custody after, or the error. The redeemed amount (fee included)
/// leaves the custody, which must hold it beyond its locked tokens, and the pool's
/// ratios must allow it.
pub open spec fn remove_liquidity_outcome(
    custody: Custody,
    custodies: Seq<AccountKey>,
    custody_key: AccountKey,
    lp_amount_in: u64,
    pool_amount_usd: u128,
    lp_supply: u64,
    quote: RemoveLiquidityQuote,
) -> Result<(LiquidityRemoval, Custody), Error> {
    if lp_amount_in == 0 {
        Err(Error::InvalidArgument)
    } else if first_index(custodies, custody_key) is None {
        Err(unsupported_token())
    } else {
        match redemption_usd_value(pool_amount_usd, lp_amount_in, lp_supply) {
            None => Err(overflow()),
            Some(usd) => if quote.remove_amount < quote.fee_amount {
                Err(overflow())
            } else if !quote.token_ratio_ok {
                Err(Error::ContractError(ContractError::TokenRatioOutOfRange))
            } else if custody.token_owned < custody.token_locked {
                Err(overflow())
            } else if custody.token_owned - custody.token_locked < quote.remove_amount {
                Err(Error::ContractError(ContractError::CustodyAmountLimit))
            } else {
                Ok((
                    LiquidityRemoval {
                        remove_amount_usd: usd,
                        transfer_amount: (quote.remove_amount - quote.fee_amount) as u64,
                    },
                    Custody { token_owned: (custody.token_owned - quote.remove_amount) as u64, ..custody },
                ))
            },
        }
    }
}

/// Redeems `params.lp_amount_in` LP tokens for the custody's token, from a pool
/// worth `pool_amount_usd` with `lp_supply` LP tokens out. The custody is left as
/// [`remove_liquidity_outcome`] says; on an error it is unchanged.
pub fn remove_liquidity(
    custody: &mut Custody,
    tokens: &PoolTokens,
    custody_key: AccountKey,
    params: &RemoveLiquidityParams,
    pool_amount_usd: u128,
    lp_supply: u64,
    quote: RemoveLiquidityQuote,
) -> (r: Result<LiquidityRemoval, Error>)
    ensures
        match remove_liquidity_outcome(
            *old(custody),
            tokens.custodies@,
            custody_key,
            params.lp_amount_in,
            pool_amount_usd,
            lp_supply,
            quote,
        ) {
            Err(e) => r == Err::<LiquidityRemoval, Error>(e) && *final(custody) == *old(custody),
            Ok((removal, c)) => r == Ok::<LiquidityRemoval, Error>(removal) && *final(custody) == c,
        },
{
    if params.lp_amount_in == 0 {
        return Err(Error::InvalidArgument);
    }
    let _token_id = get_token_id(tokens, custody_key)?;
    let remove_amount_usd = redemption_usd(pool_amount_usd, params.lp_amount_in, lp_supply)?;
    let transfer_amount = checked_sub(quote.remove_amount, quote.fee_amount)?;
    let withdrawal_amount = transfer_amount + quote.fee_amount;
    if !quote.token_ratio_ok {
        return Err(Error::ContractError(ContractError::TokenRatioOutOfRange));
    }
    let free = checked_sub(custody.token_owned, custody.token_locked)?;
    if free < withdrawal_amount {
        return Err(Error::ContractError(ContractError::CustodyAmountLimit));
    }
    custody.token_owned = custody.token_owned - withdrawal_amount;
    Ok(LiquidityRemoval { remove_amount_usd, transfer_amount })
}

/// The bytes of the name of a pool's LP token: `Olive <pool name> LP Token`.
pub open spec fn lp_token_name_bytes(pool_name: Seq<u8>) -> Seq<u8> {
    seq![79u8, 108, 105, 118, 101, 32] + pool_name + seq![32u8, 76, 80, 32, 84, 111, 107, 101, 110]
}

/// Whether a byte is not a hyphen.
pub open spec fn not_hyphen(b: u8) -> bool {
    b != 45
}

/// The bytes of the symbol of a pool's LP token: `O-` and the pool name without its
/// hyphens.
pub open spec fn lp_token_symbol_bytes(pool_name: Seq<u8>) -> Seq<u8> {
    seq![79u8, 45] + pool_name.filter(|b: u8| not_hyphen(b))
}

fn push_all(out: &mut Vec<u8>, bytes: &[u8])
    ensures
        final(out)@ == old(out)@ + bytes@,
{
    let mut i: usize = 0;
    while i < bytes.len()
        invariant
            0 <= i <= bytes@.len(),
            out@ == old(out)@ + bytes@.subrange(0, i as int),
        decreases bytes@.len() - i,
    {
        out.push(bytes[i]);
        i = i + 1;
        assert(out@ == old(out)@ + bytes@.subrange(0, i as int));
    }
    assert(bytes@.subrange(0, bytes@.len() as int) == bytes@);
}

/// The name of a pool's LP token, as UTF-8 bytes of the pool name's bytes.
pub fn lp_token_name(pool_name: &[u8]) -> (r: Vec<u8>)
    ensures
        r@ == lp_token_name_bytes(pool_name@),
{
    let mut out: Vec<u8> = Vec::new();
    out.push(79u8);
    out.push(108u8);
    out.push(105u8);
    out.push(118u8);
    out.push(101u8);
    out.push(32u8);
    push_all(&mut out, pool_name);
    out.push(32u8);
    out.push(76u8);
    out.push(80u8);
    out.push(32u8);
    out.push(84u8);
    out.push(111u8);
    out.push(107u8);
    out.push(101u8);
    out.push(110u8);
    assert(out@ == lp_token_name_bytes(pool_name@));
    out
}

/// The symbol of a pool's LP token, as bytes of the pool name's bytes.
pub fn lp_token_symbol(pool_name: &[u8]) -> (r: Vec<u8>)
    ensures
        r@ == lp_token_symbol_bytes(pool_name@),
{
    let mut out: Vec<u8> = Vec::new();
    out.push(79u8);
    out.push(45u8);
    let ghost pred = |b: u8| not_hyphen(b);
    let mut i: usize = 0;
    while i < pool_name.len()
        invariant
            0 <= i <= pool_name@.len(),
            pred == (|b: u8| not_hyphen(b)),
            out@ == seq![79u8, 45] + pool_name@.subrange(0, i as int).filter(pred),
        decreases pool_name@.len() - i,
    {
        let b = pool_name[i];
        proof {
            let prefix = pool_name@.subrange(0, i as int);
            let next = pool_name@.subrange(0, i as int + 1);
            assert(next.drop_last() == prefix);
            assert(next.last() == b);
            reveal_with_fuel(Seq::<u8>::filter, 1);
            assert(next.filter(pred) == if pred(b) {
                prefix.filter(pred).push(b)
            } else {
                prefix.filter(pred)
            });
        }
        if b != 45u8 {
            out.push(b);
        }
        i = i + 1;
    }
    assert(pool_name@.subrange(0, pool_name@.len() as int) == pool_name@);
    out
}

} // verus!
