use option_contract::errors::{ConstraintError, Error, MathError, OptionError, PoolError, TradingError};
use option_contract::options::{
    claim_option, close_option, edit_option, exercise_option, open_option, option_quantity, set_option_tp_sl,
    ClaimOptionParams, CloseOptionParams, CloseOptionQuote, EditOptionParams, EditOptionQuote, ExerciseOptionParams,
    OpenOptionParams, OpenOptionQuote, OptionCloseKeys, OptionEditKeys, OptionOpenKeys, PremiumAdjustment,
    RequestedPrice, SetOptionTpSlParams,
};
use option_contract::state::{AccountKey, Custody, OptionDetail, PriceOrder, User};

fn key(n: u128) -> AccountKey {
    AccountKey { hi: 0, lo: n }
}

fn custody(owned: u64, locked: u64) -> Custody {
    Custody {
        token_owned: owned,
        token_locked: locked,
        decimals: 9,
        pool: key(2),
        mint: key(30),
        token_account: key(31),
        oracle: key(32),
        bump: 1,
        token_account_bump: 2,
    }
}

fn option_detail() -> OptionDetail {
    OptionDetail {
        index: 1,
        owner: key(1),
        amount: 1_000,
        quantity: 10,
        period: 7,
        expired_date: 1_000,
        purchase_date: 100,
        option_type: 0,
        strike_price: 100_000_000,
        valid: true,
        locked_asset: key(3),
        pool: key(2),
        custody: key(3),
        premium: 50,
        premium_asset: key(4),
        bought_back: 0,
        exercised: 0,
        profit: 0,
        claimed: 0,
        executed: false,
        last_update_time: 0,
        take_profit_price: None,
        stop_loss_price: None,
        tp_sl_orderbook: None,
    }
}

fn blank_option() -> OptionDetail {
    OptionDetail {
        index: 0,
        owner: key(0),
        amount: 0,
        quantity: 0,
        period: 0,
        expired_date: 0,
        purchase_date: 0,
        option_type: 0,
        strike_price: 0,
        valid: false,
        locked_asset: key(0),
        pool: key(0),
        custody: key(0),
        premium: 0,
        premium_asset: key(0),
        bought_back: 0,
        exercised: 0,
        profit: 0,
        claimed: 0,
        executed: false,
        last_update_time: 0,
        take_profit_price: None,
        stop_loss_price: None,
        tp_sl_orderbook: None,
    }
}

fn close_keys() -> OptionCloseKeys {
    OptionCloseKeys { pay_custody: key(4), locked_custody: key(3), pool: key(2), custody: key(3) }
}

fn close_params(q: u64) -> CloseOptionParams {
    CloseOptionParams { option_index: 1, pool_name: String::from("SOL-USDC"), close_quantity: q }
}

fn quote(raw: Option<u64>, positive: bool) -> CloseOptionQuote {
    CloseOptionQuote { refund_amount_raw: raw, value_positive: positive }
}

#[test]
fn claim_pays_once() {
    let mut o = OptionDetail { valid: false, claimed: 40, ..option_detail() };
    let mut c = custody(100, 50);
    let params = ClaimOptionParams { option_index: 1, pool_name: String::new() };
    assert_eq!(claim_option(&mut o, &mut c, 1, key(1), &params), Ok(40));
    assert_eq!((o.profit, o.claimed, c.token_owned, c.token_locked), (40, 0, 60, 50));
    assert_eq!(
        claim_option(&mut o, &mut c, 1, key(1), &params),
        Err(Error::ConstraintError(ConstraintError::RequireGtViolated))
    );
    assert_eq!(c.token_owned, 60);
}

#[test]
fn claim_errors() {
    let params = ClaimOptionParams { option_index: 2, pool_name: String::new() };
    let mut o = OptionDetail { valid: false, claimed: 40, ..option_detail() };
    let mut c = custody(100, 50);
    assert_eq!(
        claim_option(&mut o, &mut c, 1, key(1), &params),
        Err(Error::ConstraintError(ConstraintError::RequireGteViolated))
    );
    assert_eq!(claim_option(&mut o, &mut c, 2, key(7), &params), Err(Error::TradingError(TradingError::InvalidOwner)));
    let mut valid = OptionDetail { claimed: 40, ..option_detail() };
    assert_eq!(
        claim_option(&mut valid, &mut c, 2, key(1), &params),
        Err(Error::ConstraintError(ConstraintError::RequireEqViolated))
    );
    let mut short = custody(60, 50);
    assert_eq!(
        claim_option(&mut o, &mut short, 2, key(1), &params),
        Err(Error::ConstraintError(ConstraintError::RequireGteViolated))
    );
    let mut upside_down = custody(40, 50);
    assert_eq!(
        claim_option(&mut o, &mut upside_down, 2, key(1), &params),
        Err(Error::MathError(MathError::MathOverflow))
    );
}

#[test]
fn exercise_spends_the_option() {
    let mut o = option_detail();
    let mut c = custody(5_000, 2_000);
    let params = ExerciseOptionParams { option_index: 1, pool_name: String::new() };
    assert_eq!(
        exercise_option(&mut o, &mut c, 1, &params, 500, false, 0),
        Err(Error::OptionError(OptionError::InvalidPriceRequirementError))
    );
    assert_eq!(
        exercise_option(&mut o, &mut c, 1, &params, 1_000, true, 7),
        Err(Error::OptionError(OptionError::InvalidTimeError))
    );
    assert_eq!(exercise_option(&mut o, &mut c, 1, &params, 500, true, 77), Ok(()));
    assert_eq!((o.valid, o.profit, o.exercised), (false, 77, 500));
    assert_eq!(c.token_locked, 1_000);
    let mut thin = custody(5_000, 10);
    let mut o2 = option_detail();
    assert_eq!(
        exercise_option(&mut o2, &mut thin, 1, &params, 500, true, 7),
        Err(Error::OptionError(OptionError::InvalidLockedBalanceError))
    );
}

#[test]
fn full_close_ends_the_option_and_a_second_close_does_nothing() {
    let mut o = option_detail();
    let mut closed = blank_option();
    let mut c = custody(10_000, 2_000);
    // 100 units refunded less the ten percent fee.
    assert_eq!(close_option(&mut o, &mut closed, &mut c, close_keys(), 1, &close_params(10), quote(Some(100), true), 500), Ok(Some(90)));
    assert_eq!((o.valid, o.bought_back), (false, 500));
    assert_eq!((c.token_owned, c.token_locked), (9_910, 1_000));
    assert_eq!(close_option(&mut o, &mut closed, &mut c, close_keys(), 1, &close_params(10), quote(Some(100), true), 600), Ok(None));
    assert_eq!((c.token_owned, c.token_locked), (9_910, 1_000));
}

#[test]
fn partial_close_moves_contracts_to_the_closed_record() {
    let mut o = option_detail();
    let mut closed = blank_option();
    let mut c = custody(10_000, 2_000);
    assert_eq!(close_option(&mut o, &mut closed, &mut c, close_keys(), 1, &close_params(4), quote(Some(0), true), 500), Ok(Some(0)));
    assert_eq!((o.quantity, o.amount), (6, 600));
    assert_eq!((closed.quantity, closed.amount, closed.premium, closed.valid), (4, 400, 20, false));
    assert_eq!((closed.owner, closed.bought_back, closed.pool), (key(1), 500, key(2)));
    assert_eq!((c.token_owned, c.token_locked), (10_000, 1_600));
    assert_eq!(close_option(&mut o, &mut closed, &mut c, close_keys(), 1, &close_params(3), quote(Some(20), true), 600), Ok(Some(18)));
    assert_eq!((o.quantity, o.amount), (3, 300));
    assert_eq!((closed.quantity, closed.amount, closed.bought_back), (7, 700, 600));
    assert_eq!((c.token_owned, c.token_locked), (9_982, 1_300));
}

#[test]
fn option_close_errors() {
    let mut o = option_detail();
    let mut closed = blank_option();
    let mut c = custody(10_000, 2_000);
    let wrong_pay = OptionCloseKeys { pay_custody: key(9), ..close_keys() };
    assert_eq!(
        close_option(&mut o, &mut closed, &mut c, wrong_pay, 1, &close_params(1), quote(Some(1), true), 5),
        Err(Error::ConstraintError(ConstraintError::RequireKeysEqViolated))
    );
    assert_eq!(
        close_option(&mut o, &mut closed, &mut c, close_keys(), 1, &close_params(0), quote(Some(1), true), 5),
        Err(Error::OptionError(OptionError::InvalidQuantityError))
    );
    assert_eq!(
        close_option(&mut o, &mut closed, &mut c, close_keys(), 1, &close_params(11), quote(Some(1), true), 5),
        Err(Error::OptionError(OptionError::InsufficientQuantityError))
    );
    assert_eq!(
        close_option(&mut o, &mut closed, &mut c, close_keys(), 1, &close_params(1), quote(Some(1), true), 1_000),
        Err(Error::OptionError(OptionError::InvalidTimeError))
    );
    assert_eq!(
        close_option(&mut o, &mut closed, &mut c, close_keys(), 1, &close_params(1), quote(Some(0), false), 5),
        Err(Error::OptionError(OptionError::InvalidPayAmountError))
    );
    assert_eq!(
        close_option(&mut o, &mut closed, &mut c, close_keys(), 1, &close_params(1), quote(None, true), 5),
        Err(Error::MathError(MathError::MathOverflow))
    );
    let mut poor = custody(2_050, 2_000);
    assert_eq!(
        close_option(&mut o, &mut closed, &mut poor, close_keys(), 1, &close_params(1), quote(Some(100), true), 5),
        Err(Error::OptionError(OptionError::InvalidPoolBalanceError))
    );
    let mut unlocked = custody(10_000, 50);
    assert_eq!(
        close_option(&mut o, &mut closed, &mut unlocked, close_keys(), 1, &close_params(1), quote(Some(100), true), 5),
        Err(Error::OptionError(OptionError::InvalidLockedBalanceError))
    );
    assert_eq!(o, option_detail());
}

#[test]
fn open_locks_the_quoted_tokens() {
    let mut o = blank_option();
    let mut user = User { option_index: 4, perp_position_count: 0, future_index: 0 };
    let mut pay = custody(1_000, 0);
    let mut locked = custody(10_000_000_000, 1_000_000_000);
    let keys = OptionOpenKeys { owner: key(1), pay_custody: key(4), locked_custody: key(3), pool: key(2), custody: key(3) };
    let params = OpenOptionParams { amount: 500, strike_price: 150_000_000, period: 7, expired_time: 9_999, pool_name: String::new() };
    assert_eq!(option_quantity(500, 50), Ok(10));
    assert_eq!(option_quantity(500, 0), Err(Error::MathError(MathError::MathOverflow)));
    let q = OpenOptionQuote { pay_amount: Some(50), locked_amount: Some(10_000_000_000) };
    assert_eq!(
        open_option(&mut o, &mut user, &mut pay, &mut locked, keys, 100, &params, q, 42),
        Err(Error::OptionError(OptionError::InvalidSignerBalanceError))
    );
    assert_eq!(
        open_option(&mut o, &mut user, &mut pay, &mut locked, keys, 500, &params, q, 42),
        Err(Error::OptionError(OptionError::InvalidPoolBalanceError))
    );
    let q = OpenOptionQuote { pay_amount: Some(50), locked_amount: Some(1_000_000_000) };
    assert_eq!(open_option(&mut o, &mut user, &mut pay, &mut locked, keys, 500, &params, q, 42), Ok(()));
    assert_eq!((user.option_index, o.index, o.quantity, o.premium, o.amount), (5, 5, 10, 50, 500));
    assert_eq!((o.option_type, o.valid, o.purchase_date, o.expired_date, o.strike_price), (0, true, 42, 9_999, 150_000_000));
    assert_eq!((pay.token_owned, locked.token_locked), (1_500, 2_000_000_000));
    let zero = OpenOptionQuote { pay_amount: Some(0), locked_amount: Some(1) };
    assert_eq!(
        open_option(&mut o, &mut user, &mut pay, &mut locked, keys, 500, &params, zero, 42),
        Err(Error::OptionError(OptionError::InvalidPayAmountError))
    );
}

fn edit_params(new_expiry: Option<i64>) -> EditOptionParams {
    EditOptionParams {
        option_index: 1,
        pool_name: String::new(),
        new_expiry,
        max_additional_premium: 30,
        min_refund_amount: 5,
    }
}

fn edit_quote(adjustment: PremiumAdjustment) -> EditOptionQuote {
    EditOptionQuote {
        changes_strike_or_size: true,
        size_positive: true,
        strike_positive: true,
        adjustment,
        new_strike_price: Some(120_000_000),
        new_quantity: 12,
    }
}

#[test]
fn edit_adjusts_the_premium() {
    let keys = OptionEditKeys { owner: key(1), locked_custody: key(3) };
    let mut o = option_detail();
    let mut pay = custody(1_000, 100);
    assert_eq!(
        edit_option(&mut o, &mut pay, keys, 1, &edit_params(Some(86_500)), edit_quote(PremiumAdjustment::Pay(Some(20))), 100, 500),
        Ok(PremiumAdjustment::Pay(Some(20)))
    );
    assert_eq!((o.premium, pay.token_owned, o.strike_price, o.quantity, o.expired_date), (70, 1_020, 120_000_000, 12, 86_500));
    // One whole day from the purchase at 100 to the expiry at 86_500.
    assert_eq!((o.period, o.last_update_time), (1, 500));
    assert_eq!(
        edit_option(&mut o, &mut pay, keys, 1, &edit_params(None), edit_quote(PremiumAdjustment::Refund(Some(20))), 0, 600),
        Ok(PremiumAdjustment::Refund(Some(20)))
    );
    assert_eq!((o.premium, pay.token_owned), (52, 1_002));
    assert_eq!(
        edit_option(&mut o, &mut pay, keys, 1, &edit_params(None), edit_quote(PremiumAdjustment::Pay(Some(31))), 100, 600),
        Err(Error::TradingError(TradingError::SlippageExceededError))
    );
    assert_eq!(
        edit_option(&mut o, &mut pay, keys, 1, &edit_params(None), edit_quote(PremiumAdjustment::Pay(Some(20))), 10, 600),
        Err(Error::TradingError(TradingError::InvalidSignerBalanceError))
    );
    assert_eq!(
        edit_option(&mut o, &mut pay, keys, 1, &edit_params(None), edit_quote(PremiumAdjustment::Refund(Some(5))), 0, 600),
        Err(Error::TradingError(TradingError::SlippageExceededError))
    );
    let mut dry = custody(100, 100);
    assert_eq!(
        edit_option(&mut o, &mut dry, keys, 1, &edit_params(None), edit_quote(PremiumAdjustment::Refund(Some(20))), 0, 600),
        Err(Error::PoolError(PoolError::InvalidPoolBalanceError))
    );
    assert_eq!(
        edit_option(&mut o, &mut pay, keys, 1, &edit_params(Some(600)), edit_quote(PremiumAdjustment::Even), 0, 600),
        Err(Error::OptionError(OptionError::InvalidTimeError))
    );
    let unchanged = EditOptionQuote { changes_strike_or_size: false, ..edit_quote(PremiumAdjustment::Even) };
    assert_eq!(
        edit_option(&mut o, &mut pay, keys, 1, &edit_params(None), unchanged, 0, 600),
        Err(Error::TradingError(TradingError::InvalidParameterError))
    );
    let no_strike = EditOptionQuote { new_strike_price: None, ..edit_quote(PremiumAdjustment::Even) };
    assert_eq!(
        edit_option(&mut o, &mut pay, keys, 1, &edit_params(None), no_strike, 0, 600),
        Err(Error::MathError(MathError::MathOverflow))
    );
    let mut spent = OptionDetail { valid: false, ..option_detail() };
    assert_eq!(
        edit_option(&mut spent, &mut pay, keys, 1, &edit_params(None), edit_quote(PremiumAdjustment::Even), 0, 600),
        Err(Error::OptionError(OptionError::OptionExpired))
    );
}

fn given(positive: bool, vs_strike: PriceOrder, scaled: Option<u64>) -> RequestedPrice {
    RequestedPrice::Given { positive, vs_strike, scaled }
}

#[test]
fn option_tp_sl_follow_the_strike() {
    let mut o = option_detail();
    let params = |tp, sl| SetOptionTpSlParams { option_index: 1, pool_name: String::new(), take_profit_price: tp, stop_loss_price: sl };
    assert_eq!(
        set_option_tp_sl(&mut o, key(1), &params(given(true, PriceOrder::Above, Some(130_000_000)), given(true, PriceOrder::Below, Some(80_000_000))), 10),
        Ok(())
    );
    assert_eq!((o.take_profit_price, o.stop_loss_price, o.last_update_time), (Some(130_000_000), Some(80_000_000), 10));
    assert_eq!(
        set_option_tp_sl(&mut o, key(1), &params(given(false, PriceOrder::Below, Some(0)), RequestedPrice::Unset), 11),
        Err(Error::TradingError(TradingError::InvalidPrice))
    );
    assert_eq!(
        set_option_tp_sl(&mut o, key(1), &params(given(true, PriceOrder::Below, Some(90)), RequestedPrice::Unset), 11),
        Err(Error::TradingError(TradingError::InvalidTakeProfitPrice))
    );
    assert_eq!(
        set_option_tp_sl(&mut o, key(1), &params(RequestedPrice::Unset, given(true, PriceOrder::Above, Some(90))), 11),
        Err(Error::TradingError(TradingError::InvalidStopLossPrice))
    );
    assert_eq!(
        set_option_tp_sl(&mut o, key(1), &params(given(true, PriceOrder::Above, None), RequestedPrice::Unset), 11),
        Err(Error::MathError(MathError::MathOverflow))
    );
    assert_eq!(o.take_profit_price, Some(130_000_000));
    assert_eq!(set_option_tp_sl(&mut o, key(1), &params(RequestedPrice::Unset, RequestedPrice::Unset), 12), Ok(()));
    assert_eq!((o.take_profit_price, o.stop_loss_price), (None, None));
    let mut put = OptionDetail { option_type: 1, ..option_detail() };
    assert_eq!(
        set_option_tp_sl(&mut put, key(1), &params(given(true, PriceOrder::Below, Some(90)), given(true, PriceOrder::Above, Some(80))), 12),
        Err(Error::TradingError(TradingError::InvalidPriceRange))
    );
    assert_eq!(
        set_option_tp_sl(&mut put, key(1), &params(RequestedPrice::Unset, RequestedPrice::Unset), 1_000),
        Err(Error::OptionError(OptionError::OptionExpired))
    );
    assert_eq!(
        set_option_tp_sl(&mut put, key(2), &params(RequestedPrice::Unset, RequestedPrice::Unset), 12),
        Err(Error::TradingError(TradingError::Unauthorized))
    );
}
