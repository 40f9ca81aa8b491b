use option_contract::errors::{Error, FutureError, TradingError};
use option_contract::futures::{
    claim_future, close_future, open_future, settle_expired_future, CloseFutureParams, FutureKeys, FutureTerms,
    OpenFutureParams, OpenFutureQuote, SettleExpiredFutureParams,
};
use option_contract::futures::{
    execute_limit_future, open_limit_future, ExecuteLimitFutureParams, LimitFutureQuote, OpenLimitFutureParams,
};
use option_contract::state::{AccountKey, Custody, Future, FutureStatus, OraclePrice, Side};

fn key(n: u128) -> AccountKey {
    AccountKey { hi: 2, lo: n }
}

const SOL: u128 = 3;
const USDC: u128 = 4;

fn custody(decimals: u8, owned: u64, locked: u64) -> Custody {
    Custody {
        token_owned: owned,
        token_locked: locked,
        decimals,
        pool: key(2),
        mint: key(30),
        token_account: key(31),
        oracle: key(32),
        bump: 1,
        token_account_bump: 2,
    }
}

fn sol_oracle() -> OraclePrice {
    OraclePrice { price: 150_000_000, exponent: -6 }
}

fn usdc_oracle() -> OraclePrice {
    OraclePrice { price: 1_000_000, exponent: -6 }
}

fn params(expiry: i64, size_usd: u64) -> OpenFutureParams {
    OpenFutureParams {
        side: Side::Long,
        size_usd,
        collateral_amount: 1_000_000_000,
        pay_sol: true,
        expiry_timestamp: expiry,
        max_slippage_bps: 100,
    }
}

fn quote() -> OpenFutureQuote {
    OpenFutureQuote {
        sol_price: 150_000_000,
        usdc_price: 1_000_000,
        leverage_ok: true,
        fixed_rate_bps: 500,
        future_price: 151_000_000,
        liquidation_price: 137_000_000,
    }
}

fn terms() -> FutureTerms {
    FutureTerms { opening_fee_bps: 10, settlement_fee_bps: 10, maintenance_margin_bps: 500 }
}

fn keys() -> FutureKeys {
    FutureKeys { owner: key(1), pool: key(2), sol_custody: key(SOL), usdc_custody: key(USDC), bump: 5 }
}

fn settle_params() -> SettleExpiredFutureParams {
    SettleExpiredFutureParams { future_index: 7, pool_name: String::from("SOL-USDC"), owner: key(1) }
}

fn opened() -> (Future, Custody, Custody) {
    let mut sol = custody(9, 100_000_000_000, 0);
    let mut usdc = custody(6, 100_000_000_000, 0);
    let mut index = 7u64;
    let f = open_future(
        &mut sol, &mut usdc, &mut index, &params(100 + 86_400, 1_500_000_000), &quote(), &terms(), &keys(),
        &sol_oracle(), &usdc_oracle(), 100,
    )
    .unwrap();
    assert_eq!(index, 8);
    (f, sol, usdc)
}

#[test]
fn opening_a_future_locks_its_size() {
    let (f, sol, _usdc) = opened();
    assert_eq!((f.index, f.status, f.size_usd, f.entry_price, f.future_price), (7, FutureStatus::Active, 1_500_000_000, 150_000_000, 151_000_000));
    // 150 dollars of collateral less the 1.5 dollar opening fee.
    assert_eq!((f.collateral_usd, f.opening_fee, f.settlement_fee), (148_500_000, 1_500_000, 1_500_000));
    assert_eq!((f.locked_amount, f.time_to_expiry_at_open, f.collateral_custody), (10_000_000_000, 86_400, key(SOL)));
    assert_eq!((sol.token_locked, sol.token_owned), (10_000_000_000, 101_000_000_000));
}

#[test]
fn future_opening_errors() {
    let mut sol = custody(9, 100_000_000_000, 0);
    let mut usdc = custody(6, 100_000_000_000, 0);
    let mut index = 0u64;
    let mut open = |p: OpenFutureParams, q: OpenFutureQuote| {
        open_future(&mut sol, &mut usdc, &mut index, &p, &q, &terms(), &keys(), &sol_oracle(), &usdc_oracle(), 100).map(|f| f.index)
    };
    assert_eq!(open(params(100, 1_500_000_000), quote()), Err(Error::FutureError(FutureError::InvalidExpiryTime)));
    assert_eq!(open(params(100 + 60, 1_500_000_000), quote()), Err(Error::FutureError(FutureError::ExpiryTooClose)));
    assert_eq!(open(params(100 + 40_000_000, 1_500_000_000), quote()), Err(Error::FutureError(FutureError::ExpiryTooFar)));
    assert_eq!(open(params(100 + 86_400, 0), quote()), Err(Error::FutureError(FutureError::InvalidFutureSize)));
    assert_eq!(open(params(100 + 86_400, 999_999), quote()), Err(Error::FutureError(FutureError::FutureSizeTooSmall)));
    assert_eq!(open(params(100 + 86_400, 1_000_000_000_001), quote()), Err(Error::FutureError(FutureError::FutureSizeTooLarge)));
    let high = OpenFutureQuote { leverage_ok: false, ..quote() };
    assert_eq!(open(params(100 + 86_400, 1_500_000_000), high), Err(Error::FutureError(FutureError::MaxFutureLeverageExceeded)));
    assert_eq!(index, 0);
}

#[test]
fn close_settles_and_claim_pays_once() {
    let (mut f, mut sol, mut usdc) = opened();
    let full = CloseFutureParams { future_index: 7, close_percentage: 100_000_000, receive_sol: false, max_slippage_bps: 100 };
    let early = close_future(&mut f, &mut sol, &mut usdc, &full, key(1), key(SOL), true, &sol_oracle(), &usdc_oracle(), 151_000_000, 10_000_000, 10, 500);
    assert_eq!(early.map(|r| r.settlement_usd), Err(Error::FutureError(FutureError::FutureExpired)));
    let rep = close_future(&mut f, &mut sol, &mut usdc, &full, key(1), key(SOL), false, &sol_oracle(), &usdc_oracle(), 151_000_000, 10_000_000, 10, 500).unwrap();
    // 148.5 dollars of collateral plus 10 of profit less the 1.5 dollar fee.
    assert_eq!((rep.settlement_usd, rep.settlement_tokens, rep.closing_fee, rep.locked_released), (157_000_000, 157_000_000, 1_500_000, 10_000_000_000));
    assert_eq!((f.status, f.settlement_amount, f.size_usd, f.locked_amount), (FutureStatus::Settled, Some(157_000_000), 0, 0));
    assert_eq!(sol.token_locked, 0);
    let again = close_future(&mut f, &mut sol, &mut usdc, &full, key(1), key(SOL), false, &sol_oracle(), &usdc_oracle(), 151_000_000, 0, 10, 501);
    assert_eq!(again.map(|r| r.settlement_usd), Err(Error::FutureError(FutureError::FutureNotActive)));
    let before = sol.token_owned;
    assert_eq!(claim_future(&mut f, &mut sol, &mut usdc, key(9), key(SOL), &sol_oracle(), &usdc_oracle(), 600), Err(Error::TradingError(TradingError::Unauthorized)));
    // 157 dollars at 150 dollars a SOL, counted in six decimals and then in nine.
    assert_eq!(claim_future(&mut f, &mut sol, &mut usdc, key(1), key(SOL), &sol_oracle(), &usdc_oracle(), 600), Ok(1_046_666_000));
    assert_eq!(sol.token_owned, before - 1_046_666_000);
    assert_eq!(f.settlement_amount, Some(0));
    assert_eq!(
        claim_future(&mut f, &mut sol, &mut usdc, key(1), key(SOL), &sol_oracle(), &usdc_oracle(), 601),
        Err(Error::FutureError(FutureError::NothingToClaim))
    );
}

#[test]
fn a_half_close_keeps_half_the_future() {
    let (mut f, mut sol, mut usdc) = opened();
    let half = CloseFutureParams { future_index: 7, close_percentage: 50_000_000, receive_sol: true, max_slippage_bps: 100 };
    let rep = close_future(&mut f, &mut sol, &mut usdc, &half, key(1), key(SOL), false, &sol_oracle(), &usdc_oracle(), 150_000_000, 0, 0, 500).unwrap();
    assert_eq!((rep.size_usd_closed, rep.collateral_usd_closed, rep.locked_released, rep.is_full_close), (750_000_000, 74_250_000, 5_000_000_000, false));
    assert_eq!((f.status, f.size_usd, f.collateral_usd, f.locked_amount), (FutureStatus::Active, 750_000_000, 74_250_000, 5_000_000_000));
    assert_eq!(sol.token_locked, 5_000_000_000);
}

#[test]
fn settlement_at_expiry_releases_the_lock() {
    let (f, mut sol, mut usdc) = opened();
    assert_eq!(
        settle_expired_future(&f, &mut sol, &mut usdc, &settle_params(), key(SOL), false, &sol_oracle(), &usdc_oracle(), 150_000_000),
        Err(Error::FutureError(FutureError::FutureNotYetExpired))
    );
    assert_eq!(settle_expired_future(&f, &mut sol, &mut usdc, &settle_params(), key(SOL), true, &sol_oracle(), &usdc_oracle(), 150_000_000), Ok(1_000_000_000));
    assert_eq!((sol.token_locked, sol.token_owned), (0, 100_000_000_000));
}

fn limit_params(trigger_price: u64) -> OpenLimitFutureParams {
    OpenLimitFutureParams {
        size_usd: 1_500_000_000,
        collateral_amount: 1_000_000_000,
        side: Side::Long,
        expiry_timestamp: 100 + 86_400,
        trigger_price,
        trigger_above_threshold: false,
        max_slippage: 100,
        pay_sol: true,
    }
}

fn limit_quote() -> LimitFutureQuote {
    LimitFutureQuote { collateral_usd: 150_000_000, fixed_rate_bps: 500, future_price: 141_000_000 }
}

#[test]
fn limit_futures_wait_for_their_trigger() {
    let mut sol = custody(9, 100_000_000_000, 0);
    let mut usdc = custody(6, 100_000_000_000, 0);
    let mut index = 2u64;
    let far = open_limit_future(&mut sol, &mut usdc, &mut index, &limit_params(300_000_000), &limit_quote(), &keys(), &sol_oracle(), &usdc_oracle(), 100);
    assert_eq!(far.map(|f| f.index), Err(Error::TradingError(TradingError::InvalidAmount)));
    let mut f = open_limit_future(&mut sol, &mut usdc, &mut index, &limit_params(140_000_000), &limit_quote(), &keys(), &sol_oracle(), &usdc_oracle(), 100).unwrap();
    assert_eq!((f.index, f.status, f.entry_price, f.trigger_price), (2, FutureStatus::Pending, 140_000_000, Some(140_000_000)));
    assert_eq!(index, 3);
    assert_eq!((sol.token_locked, sol.token_owned), (0, 101_000_000_000));
    let exec = |price: u64| ExecuteLimitFutureParams { future_index: 2, pool_name: String::from("SOL-USDC"), owner: key(1), execution_price: price };
    // SOL at 150 has not fallen to the trigger of 140.
    let r = execute_limit_future(&mut f, &mut sol, &mut usdc, &exec(140_000_000), false, &sol_oracle(), 141_000_000, 128_000_000, 200);
    assert_eq!(r, Err(Error::FutureError(FutureError::TriggerConditionNotMet)));
    let low = OraclePrice { price: 139_000_000, exponent: -6 };
    let r = execute_limit_future(&mut f, &mut sol, &mut usdc, &exec(150_000_000), false, &low, 141_000_000, 128_000_000, 200);
    assert_eq!(r, Err(Error::TradingError(TradingError::SlippageExceededError)));
    let r = execute_limit_future(&mut f, &mut sol, &mut usdc, &exec(140_500_000), true, &low, 141_000_000, 128_000_000, 200);
    assert_eq!(r, Err(Error::FutureError(FutureError::FutureExpired)));
    assert_eq!(execute_limit_future(&mut f, &mut sol, &mut usdc, &exec(140_500_000), false, &low, 141_000_000, 128_000_000, 200), Ok(()));
    assert_eq!((f.status, f.entry_price, f.execution_time, f.liquidation_price), (FutureStatus::Active, 140_500_000, Some(200), 128_000_000));
    assert_eq!(sol.token_locked, f.locked_amount);
    let r = execute_limit_future(&mut f, &mut sol, &mut usdc, &exec(140_500_000), false, &low, 141_000_000, 128_000_000, 201);
    assert_eq!(r, Err(Error::FutureError(FutureError::FutureNotPending)));
}
