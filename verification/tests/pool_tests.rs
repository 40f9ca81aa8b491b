use option_contract::errors::{ContractError, Error, MathError, PoolError};
use option_contract::liquidity::{
    add_liquidity, lp_token_name, lp_token_symbol, redemption_usd, remove_liquidity, AddLiquidityParams,
    AddLiquidityQuote, LiquidityRemoval, RemoveLiquidityParams, RemoveLiquidityQuote,
};
use option_contract::registry::{
    add_custody, add_pool, find_key, get_token_id, realloc_pool, remove_custody, remove_pool, AddCustodyParams,
    AddPoolParams, CustodyKeys, PoolTokens, ReallocPoolParams, RemoveCustodyParams, RemovePoolParams, TokenRatios,
};
use option_contract::state::{AccountKey, Custody, Pool};

fn key(n: u128) -> AccountKey {
    AccountKey { hi: 7, lo: n }
}

fn custody(owned: u64, locked: u64) -> Custody {
    Custody {
        token_owned: owned,
        token_locked: locked,
        decimals: 9,
        pool: key(2),
        mint: key(30),
        token_account: key(31),
        oracle: key(32),
        bump: 1,
        token_account_bump: 2,
    }
}

fn fresh_pool() -> Pool {
    Pool {
        long_open_interest_usd: 5,
        short_open_interest_usd: 6,
        cumulative_interest_rate_long: 7,
        cumulative_interest_rate_short: 8,
        bump: 0,
        lp_token_bump: 0,
    }
}

fn tokens(custodies: Vec<AccountKey>) -> PoolTokens {
    let ratios = custodies.iter().map(|_| TokenRatios { target: 5_000, min: 0, max: 10_000 }).collect();
    PoolTokens { name: String::from("SOL-USDC"), custodies, ratios }
}

fn ratios(n: usize) -> Vec<TokenRatios> {
    (0..n).map(|i| TokenRatios { target: i as u64, min: 0, max: 10_000 }).collect()
}

#[test]
fn pools_join_and_leave_the_contract_list() {
    let mut pools = vec![key(1)];
    let mut pool = fresh_pool();
    let mut t = tokens(vec![]);
    let params = AddPoolParams { name: String::from("SOL-USDC") };
    assert_eq!(add_pool(&mut pools, &mut pool, &mut t, &params, 2, key(9), 254, 253), Ok(2));
    assert_eq!(pools, vec![key(1)]);
    assert_eq!(add_pool(&mut pools, &mut pool, &mut t, &params, 0, key(9), 254, 253), Ok(0));
    assert_eq!(pools, vec![key(1), key(9)]);
    assert_eq!((pool.bump, pool.lp_token_bump, pool.long_open_interest_usd, pool.short_open_interest_usd), (254, 253, 0, 0));
    assert_eq!(pool.cumulative_interest_rate_long, 7);
    assert_eq!(
        add_pool(&mut pools, &mut pool, &mut t, &params, 0, key(9), 254, 253),
        Err(Error::AccountAlreadyInitialized)
    );
    let long_name = AddPoolParams { name: "x".repeat(65) };
    assert_eq!(add_pool(&mut pools, &mut fresh_pool(), &mut t, &long_name, 0, key(9), 1, 1), Err(Error::InvalidArgument));
    let empty = AddPoolParams { name: String::new() };
    assert_eq!(add_pool(&mut pools, &mut fresh_pool(), &mut t, &empty, 0, key(9), 1, 1), Err(Error::InvalidArgument));
    let remove = RemovePoolParams { pool_name: String::from("SOL-USDC") };
    assert_eq!(remove_pool(&mut pools, &t, &remove, 1, key(9)), Ok(1));
    assert_eq!(remove_pool(&mut pools, &t, &remove, 0, key(9)), Ok(0));
    assert_eq!(pools, vec![key(1)]);
    assert_eq!(remove_pool(&mut pools, &t, &remove, 0, key(9)), Err(Error::PoolError(PoolError::InvalidPoolState)));
    let busy = tokens(vec![key(40)]);
    assert_eq!(remove_pool(&mut pools, &busy, &remove, 0, key(1)), Err(Error::PoolError(PoolError::InvalidPoolState)));
}

#[test]
fn custodies_are_listed_once() {
    let mut t = tokens(vec![key(40)]);
    let mut c = custody(0, 0);
    let keys = CustodyKeys { pool: key(2), custody: key(41), mint: key(50), token_account: key(51) };
    let params = AddCustodyParams { oracle: key(60), ratios: ratios(2) };
    assert_eq!(add_custody(&mut t, &mut c, &AddCustodyParams { oracle: key(60), ratios: ratios(3) }, 0, keys, 6, 3, 4), Err(Error::InvalidArgument));
    assert_eq!(add_custody(&mut t, &mut c, &params, 1, keys, 6, 3, 4), Ok(1));
    assert_eq!(add_custody(&mut t, &mut c, &params, 0, keys, 6, 3, 4), Ok(0));
    assert_eq!(t.custodies, vec![key(40), key(41)]);
    assert_eq!(t.ratios, ratios(2));
    assert_eq!((c.pool, c.mint, c.token_account, c.oracle, c.decimals, c.bump, c.token_account_bump), (key(2), key(50), key(51), key(60), 6, 3, 4));
    assert_eq!(get_token_id(&t, key(41)), Ok(1));
    assert_eq!(get_token_id(&t, key(42)), Err(Error::PoolError(PoolError::UnsupportedToken)));
    let again = AddCustodyParams { oracle: key(60), ratios: ratios(3) };
    assert_eq!(add_custody(&mut t, &mut c, &again, 0, keys, 6, 3, 4), Err(Error::AccountAlreadyInitialized));
    let remove = RemoveCustodyParams { ratios: ratios(1), pool_name: String::new() };
    assert_eq!(
        remove_custody(&mut t, &remove, 0, key(41), 5),
        Err(Error::PoolError(PoolError::InvalidCustodyState))
    );
    assert_eq!(remove_custody(&mut t, &remove, 0, key(41), 0), Ok(0));
    assert_eq!(t.custodies, vec![key(40)]);
    assert_eq!(t.ratios, ratios(1));
    assert_eq!(
        remove_custody(&mut t, &remove, 0, key(41), 0),
        Err(Error::PoolError(PoolError::UnsupportedToken))
    );
    assert_eq!(find_key(&vec![key(1), key(2), key(2)], key(2)), Some(1));
}

#[test]
fn realloc_lists_a_new_custody() {
    let mut t = tokens(vec![key(40)]);
    let params = ReallocPoolParams { ratios: ratios(2), custody_key: key(41), pool_name: String::new() };
    assert_eq!(realloc_pool(&mut t, &params), Ok(()));
    assert_eq!(t.custodies, vec![key(40), key(41)]);
    let again = ReallocPoolParams { ratios: ratios(3), custody_key: key(41), pool_name: String::new() };
    assert_eq!(realloc_pool(&mut t, &again), Err(Error::AccountAlreadyInitialized));
    assert_eq!(realloc_pool(&mut t, &params), Err(Error::InvalidArgument));
}

#[test]
fn deposits_mint_their_share_of_the_pool() {
    let t = tokens(vec![key(40)]);
    let params = AddLiquidityParams { amount_in: 1_000, min_lp_amount_out: 0, pool_name: String::new() };
    // The first deposit mints its dollar value.
    let mut c = custody(0, 0);
    let q = AddLiquidityQuote { fee_amount: 10, pool_amount_usd: 0, token_amount_usd: 5_000 };
    assert_eq!(add_liquidity(&mut c, &t, key(40), &params, q, 0), Ok(5_000));
    assert_eq!(c.token_owned, 990);
    // Later deposits mint their share: 5_000 of a pool of 20_000 with 8_000 out.
    let q = AddLiquidityQuote { fee_amount: 10, pool_amount_usd: 20_000, token_amount_usd: 5_000 };
    assert_eq!(add_liquidity(&mut c, &t, key(40), &params, q, 8_000), Ok(2_000));
    assert_eq!(c.token_owned, 1_980);
    let zero = AddLiquidityParams { amount_in: 0, ..params };
    assert_eq!(add_liquidity(&mut c, &t, key(40), &zero, q, 8_000), Err(Error::InvalidArgument));
    assert_eq!(
        add_liquidity(&mut c, &t, key(41), &AddLiquidityParams { amount_in: 1_000, min_lp_amount_out: 0, pool_name: String::new() }, q, 8_000),
        Err(Error::PoolError(PoolError::UnsupportedToken))
    );
    let all_fee = AddLiquidityQuote { fee_amount: 1_000, ..q };
    let params = AddLiquidityParams { amount_in: 1_000, min_lp_amount_out: 0, pool_name: String::new() };
    assert_eq!(
        add_liquidity(&mut c, &t, key(40), &params, all_fee, 8_000),
        Err(Error::ContractError(ContractError::InsufficientAmountReturned))
    );
    let over_fee = AddLiquidityQuote { fee_amount: 1_001, ..q };
    assert_eq!(add_liquidity(&mut c, &t, key(40), &params, over_fee, 8_000), Err(Error::MathError(MathError::MathOverflow)));
}

#[test]
fn redemptions_pay_their_share_of_the_pool() {
    let t = tokens(vec![key(40)]);
    assert_eq!(redemption_usd(20_000, 8_000, 8_000), Ok(20_000));
    assert_eq!(redemption_usd(20_000, 2_000, 8_000), Ok(5_000));
    assert_eq!(redemption_usd(20_000, 2_000, 0), Err(Error::MathError(MathError::MathOverflow)));
    let mut c = custody(1_000, 100);
    let params = RemoveLiquidityParams { lp_amount_in: 2_000, min_amount_out: 0, pool_name: String::new() };
    let q = RemoveLiquidityQuote { remove_amount: 500, fee_amount: 5, token_ratio_ok: true };
    assert_eq!(
        remove_liquidity(&mut c, &t, key(40), &params, 20_000, 8_000, q),
        Ok(LiquidityRemoval { remove_amount_usd: 5_000, transfer_amount: 495 })
    );
    assert_eq!(c.token_owned, 500);
    assert_eq!(
        remove_liquidity(&mut c, &t, key(40), &params, 20_000, 8_000, q),
        Err(Error::ContractError(ContractError::CustodyAmountLimit))
    );
    let skewed = RemoveLiquidityQuote { token_ratio_ok: false, ..q };
    assert_eq!(
        remove_liquidity(&mut c, &t, key(40), &params, 20_000, 8_000, skewed),
        Err(Error::ContractError(ContractError::TokenRatioOutOfRange))
    );
    let zero = RemoveLiquidityParams { lp_amount_in: 0, min_amount_out: 0, pool_name: String::new() };
    assert_eq!(remove_liquidity(&mut c, &t, key(40), &zero, 20_000, 8_000, q), Err(Error::InvalidArgument));
    assert_eq!(c.token_owned, 500);
}

#[test]
fn lp_token_name_and_symbol() {
    assert_eq!(lp_token_name(b"SOL-USDC"), b"Olive SOL-USDC LP Token".to_vec());
    assert_eq!(lp_token_symbol(b"SOL-USDC"), b"O-SOLUSDC".to_vec());
    assert_eq!(lp_token_symbol(b"--"), b"O-".to_vec());
    assert_eq!(lp_token_name(b""), b"Olive  LP Token".to_vec());
}
