use option_contract::errors::{Error, OptionError, PoolError};
use option_contract::state::PriceOrder;
use option_contract::vault::{
    buy_option, deposit_wsol, exercise_option, expire_option, sell_option, withdraw_wsol, Lp, VaultOption,
    VaultOptionTerms, VaultUser,
};

fn lp() -> Lp {
    Lp { sol_amount: 1_000, usdc_amount: 2_000, locked_sol_amount: 300, locked_usdc_amount: 400, bump: 255 }
}

fn call() -> VaultOption {
    VaultOption {
        index: 3,
        sol_amount: 100,
        usdc_amount: 0,
        premium: 50,
        premium_unit: true,
        option_type: true,
        strike_price: 150,
        expired_date: 1_000,
        valid: true,
        bought_back: 0,
        exercised: 0,
        profit: 0,
        profit_unit: false,
    }
}

fn put() -> VaultOption {
    VaultOption { sol_amount: 0, usdc_amount: 200, option_type: false, premium_unit: false, ..call() }
}

#[test]
fn deposit_then_withdraw_restores_the_vault() {
    let mut vault = lp();
    let mut user = VaultUser { liquidity_wsol: 10, option_index: 0 };
    assert_eq!(deposit_wsol(&mut vault, &mut user, 100, 500), Err(Error::PoolError(PoolError::InvalidSignerBalanceError)));
    assert_eq!(deposit_wsol(&mut vault, &mut user, 500, 500), Ok(()));
    assert_eq!((vault.sol_amount, user.liquidity_wsol), (1_500, 510));
    assert_eq!(withdraw_wsol(&mut vault, &mut user, 100, 500), Err(Error::PoolError(PoolError::InvalidPoolBalanceError)));
    assert_eq!(withdraw_wsol(&mut vault, &mut user, 5_000, 600), Err(Error::PoolError(PoolError::InvalidWithdrawError)));
    assert_eq!(withdraw_wsol(&mut vault, &mut user, 5_000, 500), Ok(()));
    assert_eq!(vault, lp());
    assert_eq!(user, VaultUser { liquidity_wsol: 10, option_index: 0 });
}

#[test]
fn buy_back_pays_ninety_percent_of_the_premium() {
    let mut vault = lp();
    let mut o = call();
    assert_eq!(buy_option(&mut vault, &mut o, 4, 1_000, 77), Err(Error::OptionError(OptionError::InvalidOptionIndexError)));
    assert_eq!(buy_option(&mut vault, &mut o, 3, 10, 77), Err(Error::OptionError(OptionError::InvalidPoolBalanceError)));
    assert_eq!(vault, lp());
    assert_eq!(buy_option(&mut vault, &mut o, 3, 1_000, 77), Ok(Some(45)));
    assert_eq!((vault.sol_amount, vault.locked_sol_amount), (1_055, 200));
    assert_eq!((o.valid, o.bought_back), (false, 77));
    assert_eq!(buy_option(&mut vault, &mut o, 3, 1_000, 78), Ok(None));
    let mut thin = Lp { locked_usdc_amount: 10, ..lp() };
    let mut p = put();
    assert_eq!(buy_option(&mut thin, &mut p, 3, 1_000, 77), Err(Error::OptionError(OptionError::InvalidLockedBalanceError)));
}

#[test]
fn expiry_settles_in_or_out_of_the_money() {
    let mut vault = lp();
    let mut o = call();
    assert_eq!(
        expire_option(&mut vault, &mut o, 3, 1_000, PriceOrder::Above, 9),
        Err(Error::OptionError(OptionError::InvalidTimeError))
    );
    assert_eq!(
        expire_option(&mut vault, &mut o, 2, 1_001, PriceOrder::Above, 9),
        Err(Error::OptionError(OptionError::InvalidOptionIndexError))
    );
    assert_eq!(expire_option(&mut vault, &mut o, 3, 1_001, PriceOrder::Above, 9), Ok(()));
    assert_eq!((o.valid, o.profit, o.profit_unit, o.exercised), (false, 9, true, 1_001));
    assert_eq!((vault.sol_amount, vault.locked_sol_amount), (1_100, 200));
    let mut vault = lp();
    let mut p = put();
    assert_eq!(expire_option(&mut vault, &mut p, 3, 1_001, PriceOrder::Above, 9), Ok(()));
    assert_eq!((p.valid, p.profit, p.exercised), (false, 0, 0));
    assert_eq!((vault.usdc_amount, vault.locked_usdc_amount), (2_200, 200));
}

#[test]
fn exercise_before_expiry() {
    let mut vault = lp();
    let mut o = call();
    assert_eq!(
        exercise_option(&mut vault, &mut o, 3, 500, PriceOrder::Below, 9),
        Err(Error::OptionError(OptionError::InvalidPriceRequirementError))
    );
    assert_eq!(
        exercise_option(&mut vault, &mut o, 3, 1_000, PriceOrder::Above, 9),
        Err(Error::OptionError(OptionError::InvalidTimeError))
    );
    assert_eq!(exercise_option(&mut vault, &mut o, 3, 500, PriceOrder::Equal, 9), Ok(()));
    assert_eq!((o.valid, o.profit, o.profit_unit, o.exercised), (false, 9, true, 500));
    assert_eq!((vault.sol_amount, vault.locked_sol_amount), (1_100, 200));
    let mut p = put();
    let mut vault = lp();
    assert_eq!(
        exercise_option(&mut vault, &mut p, 3, 500, PriceOrder::Above, 9),
        Err(Error::OptionError(OptionError::InvalidPriceRequirementError))
    );
    assert_eq!(exercise_option(&mut vault, &mut p, 3, 500, PriceOrder::Below, 12), Ok(()));
    assert_eq!((p.profit, p.profit_unit), (12, false));
}

#[test]
fn selling_records_the_terms() {
    let mut o = call();
    let mut user = VaultUser { liquidity_wsol: 0, option_index: 1 };
    let terms = VaultOptionTerms { premium: 12, premium_unit: false, strike_price: 200, expired_date: 9 };
    sell_option(&mut o, &mut user, 700, 2, terms);
    assert_eq!((o.index, o.sol_amount, o.premium, o.premium_unit, o.strike_price, o.expired_date, o.bought_back), (2, 700, 12, false, 200, 9, 0));
    assert_eq!(user.option_index, 2);
}
