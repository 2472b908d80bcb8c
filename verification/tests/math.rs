use clearing_house::controller::spot_balance::update_spot_balances;
use clearing_house::error::ErrorCode;
use clearing_house::math::amm::calculate_market_open_bids_asks;
use clearing_house::math::casting::{
    cast_to_i128, cast_to_i64, cast_to_u128, cast_to_u64, unsigned_abs,
};
use clearing_house::math::orders::standardize_base_asset_amount;
use clearing_house::math::spot_balance::{get_spot_balance, get_token_amount};
use clearing_house::state::market::AMM;
use clearing_house::state::spot_market::{SpotBalanceType, SpotMarket};
use clearing_house::state::user::SpotPosition;

#[test]
fn casts_keep_what_fits_and_refuse_the_rest() {
    assert_eq!(cast_to_u64(0), Ok(0));
    assert_eq!(cast_to_u64(u64::MAX as u128), Ok(u64::MAX));
    assert_eq!(cast_to_u64(u64::MAX as u128 + 1), Err(ErrorCode::CastingFailure));
    assert_eq!(cast_to_i64(i64::MAX as u128), Ok(i64::MAX));
    assert_eq!(cast_to_i64(i64::MAX as u128 + 1), Err(ErrorCode::CastingFailure));
    assert_eq!(cast_to_i128(i128::MAX as u128), Ok(i128::MAX));
    assert_eq!(cast_to_i128(i128::MAX as u128 + 1), Err(ErrorCode::CastingFailure));
    assert_eq!(cast_to_u128(i128::MAX), Ok(i128::MAX as u128));
    assert_eq!(cast_to_u128(0), Ok(0));
    assert_eq!(cast_to_u128(-1), Err(ErrorCode::CastingFailure));
}

#[test]
fn magnitudes() {
    assert_eq!(unsigned_abs(0), 0);
    assert_eq!(unsigned_abs(5), 5);
    assert_eq!(unsigned_abs(-5), 5);
    assert_eq!(unsigned_abs(i128::MAX), i128::MAX as u128);
    assert_eq!(unsigned_abs(i128::MIN), i128::MAX as u128 + 1);
    assert_eq!(unsigned_abs(i128::MIN + 1), i128::MAX as u128);
}

#[test]
fn open_bids_and_asks_of_a_maker() {
    let amm = AMM {
        min_base_asset_reserve: 50,
        max_base_asset_reserve: 100,
        base_asset_reserve: 88,
        ..AMM::default_test()
    };
    assert_eq!(calculate_market_open_bids_asks(&amm), Ok((38, -12)));
    let at_the_top = AMM { base_asset_reserve: 100, ..amm };
    assert_eq!(calculate_market_open_bids_asks(&at_the_top), Ok((50, 0)));
    let beyond_the_bottom = AMM { base_asset_reserve: 10, ..amm };
    assert_eq!(calculate_market_open_bids_asks(&beyond_the_bottom), Ok((0, -90)));
    let too_wide = AMM { max_base_asset_reserve: u128::MAX, ..amm };
    assert_eq!(calculate_market_open_bids_asks(&too_wide), Err(ErrorCode::CastingFailure));
    let default_test = AMM::default_test();
    assert_eq!(
        calculate_market_open_bids_asks(&default_test),
        Ok((100_000_000_000, -(u64::MAX as i128 - 100_000_000_000)))
    );
}

#[test]
fn standardize_rounds_down_to_a_multiple() {
    assert_eq!(standardize_base_asset_amount(25, 10), Ok(20));
    assert_eq!(standardize_base_asset_amount(30, 10), Ok(30));
    assert_eq!(standardize_base_asset_amount(9, 10), Ok(0));
    assert_eq!(standardize_base_asset_amount(u64::MAX, 1), Ok(u64::MAX));
    assert_eq!(standardize_base_asset_amount(u64::MAX, u64::MAX), Ok(u64::MAX));
    assert_eq!(standardize_base_asset_amount(u64::MAX - 1, u64::MAX), Ok(0));
    assert_eq!(standardize_base_asset_amount(25, 0), Err(ErrorCode::MathError));
    assert_eq!(standardize_base_asset_amount(0, 0), Err(ErrorCode::MathError));
}

#[test]
fn tokens_to_balance() {
    let market = SpotMarket {
        cumulative_deposit_interest: 20_000_000_000,
        cumulative_borrow_interest: 30_000_000_000,
        ..SpotMarket::default_quote_market()
    };
    assert_eq!(get_spot_balance(100, &market, &SpotBalanceType::Deposit, false), Ok(50_000));
    assert_eq!(get_spot_balance(100, &market, &SpotBalanceType::Deposit, true), Ok(50_001));
    assert_eq!(get_spot_balance(100, &market, &SpotBalanceType::Borrow, false), Ok(33_333));
    assert_eq!(get_spot_balance(100, &market, &SpotBalanceType::Borrow, true), Ok(33_334));
    assert_eq!(get_spot_balance(0, &market, &SpotBalanceType::Borrow, true), Ok(0));

    let quote = SpotMarket::default_quote_market();
    assert_eq!(get_spot_balance(1, &quote, &SpotBalanceType::Deposit, false), Ok(1_000));

    // a token with as many decimals as a balance together with its interest
    let fine = SpotMarket { decimals: 19, ..quote };
    assert_eq!(get_spot_balance(10_000_000_000, &fine, &SpotBalanceType::Deposit, false), Ok(1));
    assert_eq!(get_spot_balance(9_999_999_999, &fine, &SpotBalanceType::Deposit, false), Ok(0));
    assert_eq!(get_spot_balance(9_999_999_999, &fine, &SpotBalanceType::Deposit, true), Ok(0));
    let whole = SpotMarket { decimals: 0, ..quote };
    assert_eq!(
        get_spot_balance(1, &whole, &SpotBalanceType::Deposit, false),
        Ok(1_000_000_000)
    );
}

#[test]
fn tokens_to_balance_errors() {
    let quote = SpotMarket::default_quote_market();
    let too_fine = SpotMarket { decimals: 20, ..quote };
    assert_eq!(
        get_spot_balance(1, &too_fine, &SpotBalanceType::Deposit, false),
        Err(ErrorCode::MathError)
    );
    let no_interest = SpotMarket { cumulative_borrow_interest: 0, ..quote };
    assert_eq!(
        get_spot_balance(1, &no_interest, &SpotBalanceType::Borrow, false),
        Err(ErrorCode::MathError)
    );
    assert_eq!(get_spot_balance(1, &no_interest, &SpotBalanceType::Deposit, false), Ok(1_000));
    assert_eq!(
        get_spot_balance(u128::MAX / 10_000_000_000_000 + 1, &quote, &SpotBalanceType::Deposit, false),
        Err(ErrorCode::MathError)
    );
    // rounding up the largest balance
    let unit = SpotMarket {
        decimals: 19,
        cumulative_deposit_interest: 1,
        ..quote
    };
    assert_eq!(
        get_spot_balance(u128::MAX, &unit, &SpotBalanceType::Deposit, false),
        Ok(u128::MAX)
    );
    assert_eq!(
        get_spot_balance(u128::MAX, &unit, &SpotBalanceType::Deposit, true),
        Err(ErrorCode::MathError)
    );
}

#[test]
fn balance_to_tokens() {
    let market = SpotMarket {
        cumulative_deposit_interest: 20_000_000_000,
        cumulative_borrow_interest: 30_000_000_000,
        ..SpotMarket::default_quote_market()
    };
    assert_eq!(get_token_amount(50_000, &market, &SpotBalanceType::Deposit), Ok(100));
    assert_eq!(get_token_amount(50_499, &market, &SpotBalanceType::Deposit), Ok(100));
    assert_eq!(get_token_amount(33_334, &market, &SpotBalanceType::Borrow), Ok(101));
    assert_eq!(get_token_amount(33_333, &market, &SpotBalanceType::Borrow), Ok(100));
    assert_eq!(get_token_amount(1, &market, &SpotBalanceType::Borrow), Ok(1));
    assert_eq!(get_token_amount(1, &market, &SpotBalanceType::Deposit), Ok(0));
    assert_eq!(get_token_amount(0, &market, &SpotBalanceType::Borrow), Ok(0));
    let unit = SpotMarket { decimals: 19, cumulative_borrow_interest: 1, ..market };
    assert_eq!(get_token_amount(u128::MAX, &unit, &SpotBalanceType::Borrow), Ok(u128::MAX));
}

#[test]
fn balance_to_tokens_errors() {
    let quote = SpotMarket::default_quote_market();
    let too_fine = SpotMarket { decimals: 255, ..quote };
    assert_eq!(
        get_token_amount(1, &too_fine, &SpotBalanceType::Deposit),
        Err(ErrorCode::MathError)
    );
    assert_eq!(
        get_token_amount(u128::MAX, &quote, &SpotBalanceType::Deposit),
        Err(ErrorCode::MathError)
    );
}

#[test]
fn balances_alone_leave_the_running_total() {
    let mut market = SpotMarket::default_quote_market();
    let mut position = SpotPosition { cumulative_deposits: 5, ..SpotPosition::default() };
    update_spot_balances(100, &SpotBalanceType::Deposit, &mut market, &mut position, false)
        .unwrap();
    assert_eq!(position.balance, 100_000);
    assert_eq!(position.cumulative_deposits, 5);
    assert_eq!(market.deposit_balance, 100_000);
    let before = (market, position);
    assert_eq!(
        update_spot_balances(101, &SpotBalanceType::Borrow, &mut market, &mut position, false),
        Err(ErrorCode::SpotMarketInsufficientDeposits)
    );
    assert_eq!((market, position), before);
    update_spot_balances(100, &SpotBalanceType::Borrow, &mut market, &mut position, false)
        .unwrap();
    assert_eq!(position.balance, 0);
    assert_eq!(position.balance_type, SpotBalanceType::Deposit);
    assert_eq!(market.deposit_balance, 0);
}

#[test]
fn books_that_do_not_add_up_are_a_math_error() {
    // the position holds more than the market knows of
    let mut market = SpotMarket::default_quote_market();
    let mut position = SpotPosition { balance: 100_000, ..SpotPosition::default() };
    assert_eq!(
        update_spot_balances(50, &SpotBalanceType::Borrow, &mut market, &mut position, false),
        Err(ErrorCode::MathError)
    );
    assert_eq!(market, SpotMarket::default_quote_market());
    assert_eq!(position.balance, 100_000);
}
