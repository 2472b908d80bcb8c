use clearing_house::controller::position::PositionDirection;
use clearing_house::controller::spot_position::{
    decrease_spot_open_bids_and_asks, increase_spot_open_bids_and_asks,
    transfer_spot_position_deposit, update_spot_position_balance,
};
use clearing_house::error::ErrorCode;
use clearing_house::math::constants::SPOT_BALANCE_PRECISION;
use clearing_house::state::spot_market::{SpotBalanceType, SpotMarket};
use clearing_house::state::user::{SpotPosition, User};

fn signed_balance(position: &SpotPosition) -> i128 {
    match position.balance_type {
        SpotBalanceType::Deposit => position.balance as i128,
        SpotBalanceType::Borrow => -(position.balance as i128),
    }
}

fn net_balance(market: &SpotMarket) -> i128 {
    market.deposit_balance as i128 - market.borrow_balance as i128
}

#[test]
fn deposit() {
    let mut user = User::default();
    let mut spot_market = SpotMarket::default_quote_market();

    let token_amount = 100_u128;
    update_spot_position_balance(
        token_amount,
        &SpotBalanceType::Deposit,
        &mut spot_market,
        user.get_quote_spot_position_mut(),
        false,
    )
    .unwrap();

    assert_eq!(user.get_quote_spot_position_mut().cumulative_deposits, 100);
}

#[test]
fn borrow() {
    let mut user = User::default();
    let mut spot_market = SpotMarket {
        deposit_balance: 101 * SPOT_BALANCE_PRECISION,
        ..SpotMarket::default_quote_market()
    };

    let token_amount = 100_u128;
    update_spot_position_balance(
        token_amount,
        &SpotBalanceType::Borrow,
        &mut spot_market,
        user.get_quote_spot_position_mut(),
        false,
    )
    .unwrap();

    assert_eq!(user.get_quote_spot_position_mut().cumulative_deposits, -100);
}

#[test]
fn deposit_moves_position_and_market_together() {
    let mut user = User::default();
    let mut spot_market = SpotMarket::default_quote_market();
    update_spot_position_balance(
        100,
        &SpotBalanceType::Deposit,
        &mut spot_market,
        user.get_quote_spot_position_mut(),
        false,
    )
    .unwrap();
    let position = *user.get_quote_spot_position_mut();
    assert_eq!(position.balance_type, SpotBalanceType::Deposit);
    assert_eq!(position.balance, 100_000);
    assert_eq!(spot_market.deposit_balance, 100_000);
    assert_eq!(spot_market.borrow_balance, 0);
    // the other positions of the account are untouched
    assert_eq!(user.spot_positions[1], SpotPosition::default());
}

#[test]
fn borrow_rounds_what_is_owed_up() {
    let mut position = SpotPosition::default();
    let mut spot_market = SpotMarket {
        deposit_balance: 101 * SPOT_BALANCE_PRECISION,
        ..SpotMarket::default_quote_market()
    };
    update_spot_position_balance(
        100,
        &SpotBalanceType::Borrow,
        &mut spot_market,
        &mut position,
        false,
    )
    .unwrap();
    assert_eq!(position.balance_type, SpotBalanceType::Borrow);
    assert_eq!(position.balance, 100_001);
    assert_eq!(spot_market.borrow_balance, 100_001);
    assert_eq!(spot_market.deposit_balance, 101 * SPOT_BALANCE_PRECISION);
}

#[test]
fn deposit_then_borrow_restores_cumulative_deposits() {
    let mut position = SpotPosition { cumulative_deposits: -7, ..SpotPosition::default() };
    let mut spot_market = SpotMarket {
        deposit_balance: 5_000_000,
        ..SpotMarket::default_quote_market()
    };
    for token_amount in [0_u128, 1, 99, 4_000] {
        update_spot_position_balance(
            token_amount,
            &SpotBalanceType::Deposit,
            &mut spot_market,
            &mut position,
            false,
        )
        .unwrap();
        assert_eq!(position.cumulative_deposits as i128, -7 + token_amount as i128);
        update_spot_position_balance(
            token_amount,
            &SpotBalanceType::Borrow,
            &mut spot_market,
            &mut position,
            false,
        )
        .unwrap();
        assert_eq!(position.cumulative_deposits, -7);
    }
}

#[test]
fn partial_withdrawal_rounds_down_unless_forced() {
    let mut spot_market = SpotMarket {
        cumulative_deposit_interest: 30_000_000_000,
        ..SpotMarket::default_quote_market()
    };
    let mut position = SpotPosition::default();
    update_spot_position_balance(
        300,
        &SpotBalanceType::Deposit,
        &mut spot_market,
        &mut position,
        false,
    )
    .unwrap();
    assert_eq!(position.balance, 100_000);

    let mut rounded_down = position;
    let mut market_down = spot_market;
    update_spot_position_balance(
        100,
        &SpotBalanceType::Borrow,
        &mut market_down,
        &mut rounded_down,
        false,
    )
    .unwrap();
    assert_eq!(rounded_down.balance, 100_000 - 33_333);
    assert_eq!(market_down.deposit_balance, 100_000 - 33_333);

    let mut rounded_up = position;
    let mut market_up = spot_market;
    update_spot_position_balance(
        100,
        &SpotBalanceType::Borrow,
        &mut market_up,
        &mut rounded_up,
        true,
    )
    .unwrap();
    assert_eq!(rounded_up.balance, 100_000 - 33_334);
    assert_eq!(market_up.deposit_balance, 100_000 - 33_334);
    assert_eq!(rounded_up.cumulative_deposits, 200);
}

#[test]
fn borrow_beyond_the_deposit_changes_sides() {
    let mut spot_market = SpotMarket {
        deposit_balance: 10_000_000,
        ..SpotMarket::default_quote_market()
    };
    let mut position = SpotPosition::default();
    update_spot_position_balance(
        100,
        &SpotBalanceType::Deposit,
        &mut spot_market,
        &mut position,
        false,
    )
    .unwrap();
    update_spot_position_balance(
        150,
        &SpotBalanceType::Borrow,
        &mut spot_market,
        &mut position,
        false,
    )
    .unwrap();
    assert_eq!(position.balance_type, SpotBalanceType::Borrow);
    assert_eq!(position.balance, 50_001);
    assert_eq!(position.cumulative_deposits, -50);
    assert_eq!(spot_market.deposit_balance, 10_000_000);
    assert_eq!(spot_market.borrow_balance, 50_001);

    // paying back exactly what is owed leaves an empty borrow
    update_spot_position_balance(
        51,
        &SpotBalanceType::Deposit,
        &mut spot_market,
        &mut position,
        false,
    )
    .unwrap();
    assert_eq!(position.balance_type, SpotBalanceType::Borrow);
    assert_eq!(position.balance, 0);
    assert_eq!(spot_market.borrow_balance, 0);
    assert_eq!(position.cumulative_deposits, 1);
}

#[test]
fn changing_sides_gives_up_what_is_worth_less_than_a_token() {
    let mut spot_market = SpotMarket {
        deposit_balance: 10_000_000,
        ..SpotMarket::default_quote_market()
    };
    // 999 units of balance are worth less than one token
    let mut position = SpotPosition { balance: 999, ..SpotPosition::default() };
    update_spot_position_balance(
        2,
        &SpotBalanceType::Borrow,
        &mut spot_market,
        &mut position,
        false,
    )
    .unwrap();
    assert_eq!(position.balance_type, SpotBalanceType::Borrow);
    assert_eq!(position.balance, 2_001);
    assert_eq!(spot_market.deposit_balance, 10_000_000 - 999);
    assert_eq!(spot_market.borrow_balance, 2_001);

    // a move of no tokens leaves it alone
    let mut idle = SpotPosition { balance: 999, ..SpotPosition::default() };
    let mut market = SpotMarket { deposit_balance: 999, ..SpotMarket::default_quote_market() };
    update_spot_position_balance(0, &SpotBalanceType::Borrow, &mut market, &mut idle, false)
        .unwrap();
    assert_eq!(idle, SpotPosition { balance: 999, ..SpotPosition::default() });
    assert_eq!(market.deposit_balance, 999);
}

#[test]
fn borrow_without_deposits_is_refused_and_changes_nothing() {
    let mut spot_market = SpotMarket::default_quote_market();
    let mut position = SpotPosition::default();
    let result = update_spot_position_balance(
        100,
        &SpotBalanceType::Borrow,
        &mut spot_market,
        &mut position,
        false,
    );
    assert_eq!(result, Err(ErrorCode::SpotMarketInsufficientDeposits));
    assert_eq!(spot_market, SpotMarket::default_quote_market());
    assert_eq!(position, SpotPosition::default());
}

#[test]
fn borrow_up_to_the_deposits_of_the_market() {
    let mut spot_market = SpotMarket {
        deposit_balance: 100_000,
        ..SpotMarket::default_quote_market()
    };
    let mut position = SpotPosition::default();
    // 99 tokens are owed as 99_001 units, which count as a hundred tokens
    assert_eq!(
        update_spot_position_balance(
            99,
            &SpotBalanceType::Borrow,
            &mut spot_market,
            &mut position,
            false,
        ),
        Ok(())
    );
    let mut spot_market = SpotMarket {
        deposit_balance: 100_000,
        ..SpotMarket::default_quote_market()
    };
    let mut position = SpotPosition::default();
    assert_eq!(
        update_spot_position_balance(
            100,
            &SpotBalanceType::Borrow,
            &mut spot_market,
            &mut position,
            false,
        ),
        Err(ErrorCode::SpotMarketInsufficientDeposits)
    );
}

#[test]
fn cumulative_deposits_errors_change_nothing() {
    let mut spot_market = SpotMarket::default_quote_market();
    let mut position = SpotPosition { cumulative_deposits: i64::MAX, ..SpotPosition::default() };
    let before = (spot_market, position);
    assert_eq!(
        update_spot_position_balance(
            1,
            &SpotBalanceType::Deposit,
            &mut spot_market,
            &mut position,
            false,
        ),
        Err(ErrorCode::MathError)
    );
    assert_eq!((spot_market, position), before);

    // more tokens than the running total can count
    let mut spot_market = SpotMarket { decimals: 19, ..SpotMarket::default_quote_market() };
    let mut position = SpotPosition::default();
    let before = (spot_market, position);
    assert_eq!(
        update_spot_position_balance(
            i64::MAX as u128 + 1,
            &SpotBalanceType::Deposit,
            &mut spot_market,
            &mut position,
            false,
        ),
        Err(ErrorCode::CastingFailure)
    );
    assert_eq!((spot_market, position), before);
    assert_eq!(
        update_spot_position_balance(
            i64::MAX as u128,
            &SpotBalanceType::Deposit,
            &mut spot_market,
            &mut position,
            false,
        ),
        Ok(())
    );
    assert_eq!(position.cumulative_deposits, i64::MAX);
}

#[test]
fn scaling_overflow_is_a_math_error() {
    let mut spot_market = SpotMarket::default_quote_market();
    let mut position = SpotPosition::default();
    assert_eq!(
        update_spot_position_balance(
            u128::MAX,
            &SpotBalanceType::Deposit,
            &mut spot_market,
            &mut position,
            false,
        ),
        Err(ErrorCode::MathError)
    );
    assert_eq!(spot_market, SpotMarket::default_quote_market());
    assert_eq!(position, SpotPosition::default());

    // the zeroed market has no interest to divide by
    let mut blank = SpotMarket::default();
    assert_eq!(
        update_spot_position_balance(
            1,
            &SpotBalanceType::Deposit,
            &mut blank,
            &mut position,
            false,
        ),
        Err(ErrorCode::MathError)
    );
}

#[test]
fn transfer_between_depositors_conserves_balances() {
    let mut spot_market = SpotMarket::default_quote_market();
    let mut from = SpotPosition::default();
    let mut to = SpotPosition::default();
    update_spot_position_balance(
        1_000,
        &SpotBalanceType::Deposit,
        &mut spot_market,
        &mut from,
        false,
    )
    .unwrap();
    let net_before = net_balance(&spot_market);
    let sum_before = signed_balance(&from) + signed_balance(&to);

    transfer_spot_position_deposit(400, &mut spot_market, &mut from, &mut to).unwrap();

    assert_eq!(from.balance, 600_000);
    assert_eq!(to.balance, 400_000);
    assert_eq!(from.balance_type, SpotBalanceType::Deposit);
    assert_eq!(to.balance_type, SpotBalanceType::Deposit);
    assert_eq!(from.cumulative_deposits, 600);
    assert_eq!(to.cumulative_deposits, 400);
    assert_eq!(signed_balance(&from) + signed_balance(&to), sum_before);
    assert_eq!(net_balance(&spot_market), net_before);
    assert_eq!(spot_market.deposit_balance, 1_000_000);
}

#[test]
fn transfer_with_interest_conserves_balances() {
    let mut spot_market = SpotMarket {
        cumulative_deposit_interest: 30_000_000_000,
        cumulative_borrow_interest: 70_000_000_000,
        ..SpotMarket::default_quote_market()
    };
    let mut from = SpotPosition::default();
    let mut to = SpotPosition { balance_type: SpotBalanceType::Borrow, ..SpotPosition::default() };
    update_spot_position_balance(
        1_000,
        &SpotBalanceType::Deposit,
        &mut spot_market,
        &mut from,
        false,
    )
    .unwrap();
    assert_eq!(from.balance, 333_333);

    transfer_spot_position_deposit(100, &mut spot_market, &mut from, &mut to).unwrap();

    assert_eq!(from.balance, 333_333 - 33_333);
    assert_eq!(to.balance, 33_333);
    assert_eq!(to.balance_type, SpotBalanceType::Deposit);
    assert_eq!(spot_market.deposit_balance, 333_333);
    assert_eq!(spot_market.borrow_balance, 0);
    assert_eq!(from.cumulative_deposits + to.cumulative_deposits, 1_000);
}

#[test]
fn transfer_between_borrowers_conserves_balances() {
    let mut spot_market = SpotMarket {
        deposit_balance: 10_000_000,
        borrow_balance: 500_001,
        ..SpotMarket::default_quote_market()
    };
    let mut from = SpotPosition::default();
    let mut to = SpotPosition {
        balance_type: SpotBalanceType::Borrow,
        balance: 500_001,
        ..SpotPosition::default()
    };
    let sum_before = signed_balance(&from) + signed_balance(&to);

    transfer_spot_position_deposit(100, &mut spot_market, &mut from, &mut to).unwrap();

    assert_eq!(from.balance_type, SpotBalanceType::Borrow);
    assert_eq!(from.balance, 100_001);
    assert_eq!(to.balance_type, SpotBalanceType::Borrow);
    assert_eq!(to.balance, 400_000);
    assert_eq!(signed_balance(&from) + signed_balance(&to), sum_before);
    assert_eq!(spot_market.deposit_balance, 10_000_000);
    assert_eq!(spot_market.borrow_balance, 500_001);
    assert_eq!(from.cumulative_deposits, -100);
    assert_eq!(to.cumulative_deposits, 100);
}

#[test]
fn transfer_of_nothing_changes_nothing() {
    let mut spot_market = SpotMarket {
        deposit_balance: 10_000_000,
        borrow_balance: 500_001,
        ..SpotMarket::default_quote_market()
    };
    let mut from = SpotPosition { balance: 999, ..SpotPosition::default() };
    let mut to = SpotPosition {
        balance_type: SpotBalanceType::Borrow,
        balance: 500_001,
        ..SpotPosition::default()
    };
    let before = (spot_market, from, to);
    transfer_spot_position_deposit(0, &mut spot_market, &mut from, &mut to).unwrap();
    assert_eq!((spot_market, from, to), before);
}

#[test]
fn transfer_into_debt_moves_market_and_positions_alike() {
    let mut spot_market = SpotMarket {
        deposit_balance: 10_000_000,
        ..SpotMarket::default_quote_market()
    };
    let mut from = SpotPosition::default();
    let mut to = SpotPosition::default();
    update_spot_position_balance(
        100,
        &SpotBalanceType::Deposit,
        &mut spot_market,
        &mut from,
        false,
    )
    .unwrap();
    let net_before = net_balance(&spot_market);
    let sum_before = signed_balance(&from) + signed_balance(&to);

    transfer_spot_position_deposit(150, &mut spot_market, &mut from, &mut to).unwrap();

    assert_eq!(from.balance_type, SpotBalanceType::Borrow);
    assert_eq!(from.balance, 50_001);
    assert_eq!(to.balance, 150_000);
    // what is owed was rounded up by one unit; the market shows the same unit
    assert_eq!(signed_balance(&from) + signed_balance(&to), sum_before - 1);
    assert_eq!(net_balance(&spot_market), net_before - 1);
    // the tokens themselves are conserved
    assert_eq!(from.cumulative_deposits + to.cumulative_deposits, 100);
    assert_eq!(from.cumulative_deposits, -50);
    assert_eq!(to.cumulative_deposits, 150);
}

#[test]
fn transfer_between_markets_is_refused_and_changes_nothing() {
    let mut spot_market = SpotMarket {
        deposit_balance: 10_000_000,
        ..SpotMarket::default_quote_market()
    };
    let mut from = SpotPosition { balance: 5_000_000, ..SpotPosition::default() };
    let mut to = SpotPosition { market_index: 1, ..SpotPosition::default() };
    let before = (spot_market, from, to);
    assert_eq!(
        transfer_spot_position_deposit(100, &mut spot_market, &mut from, &mut to),
        Err(ErrorCode::MarketIndexMismatch)
    );
    assert_eq!((spot_market, from, to), before);
    assert_eq!(
        transfer_spot_position_deposit(0, &mut spot_market, &mut to, &mut from),
        Err(ErrorCode::MarketIndexMismatch)
    );
    assert_eq!((spot_market, from, to), before);
}

#[test]
fn transfer_that_cannot_be_borrowed_changes_nothing() {
    let mut spot_market = SpotMarket::default_quote_market();
    let mut from = SpotPosition::default();
    let mut to = SpotPosition::default();
    assert_eq!(
        transfer_spot_position_deposit(100, &mut spot_market, &mut from, &mut to),
        Err(ErrorCode::SpotMarketInsufficientDeposits)
    );
    assert_eq!(spot_market, SpotMarket::default_quote_market());
    assert_eq!(from, SpotPosition::default());
    assert_eq!(to, SpotPosition::default());
}

#[test]
fn transfer_that_cannot_be_deposited_keeps_the_borrow() {
    let mut spot_market = SpotMarket {
        deposit_balance: 1_000_000,
        ..SpotMarket::default_quote_market()
    };
    let mut from = SpotPosition { balance: 1_000_000, ..SpotPosition::default() };
    let mut to = SpotPosition { cumulative_deposits: i64::MAX, ..SpotPosition::default() };
    assert_eq!(
        transfer_spot_position_deposit(400, &mut spot_market, &mut from, &mut to),
        Err(ErrorCode::MathError)
    );
    assert_eq!(from.balance, 600_000);
    assert_eq!(from.cumulative_deposits, -400);
    assert_eq!(spot_market.deposit_balance, 600_000);
    assert_eq!(to, SpotPosition { cumulative_deposits: i64::MAX, ..SpotPosition::default() });
}

#[test]
fn open_bids_and_asks_round_trip() {
    let start = SpotPosition { open_bids: 7, open_asks: 50, ..SpotPosition::default() };
    for amount in [0_u64, 1, 20, 50] {
        for direction in [PositionDirection::Long, PositionDirection::Short] {
            let mut position = start;
            increase_spot_open_bids_and_asks(&mut position, &direction, amount).unwrap();
            decrease_spot_open_bids_and_asks(&mut position, &direction, amount).unwrap();
            assert_eq!(position, start);
        }
    }
}

#[test]
fn open_bids_and_asks_exact_values() {
    let mut position = SpotPosition { open_bids: 7, open_asks: 50, ..SpotPosition::default() };
    increase_spot_open_bids_and_asks(&mut position, &PositionDirection::Long, 10).unwrap();
    assert_eq!((position.open_bids, position.open_asks), (17, 50));
    increase_spot_open_bids_and_asks(&mut position, &PositionDirection::Short, 20).unwrap();
    assert_eq!((position.open_bids, position.open_asks), (17, 30));
    decrease_spot_open_bids_and_asks(&mut position, &PositionDirection::Long, 17).unwrap();
    assert_eq!((position.open_bids, position.open_asks), (0, 30));
    decrease_spot_open_bids_and_asks(&mut position, &PositionDirection::Short, 5).unwrap();
    assert_eq!((position.open_bids, position.open_asks), (0, 35));
    assert_eq!(position.balance, 0);
    assert_eq!(position.cumulative_deposits, 0);
}

#[test]
fn open_bids_and_asks_errors_change_nothing() {
    let start = SpotPosition { open_bids: u64::MAX, open_asks: 3, ..SpotPosition::default() };
    let mut position = start;
    assert_eq!(
        increase_spot_open_bids_and_asks(&mut position, &PositionDirection::Long, 1),
        Err(ErrorCode::MathError)
    );
    assert_eq!(position, start);
    assert_eq!(
        increase_spot_open_bids_and_asks(&mut position, &PositionDirection::Short, 4),
        Err(ErrorCode::MathError)
    );
    assert_eq!(position, start);

    let start = SpotPosition { open_bids: 3, open_asks: u64::MAX, ..SpotPosition::default() };
    let mut position = start;
    assert_eq!(
        decrease_spot_open_bids_and_asks(&mut position, &PositionDirection::Long, 4),
        Err(ErrorCode::MathError)
    );
    assert_eq!(position, start);
    assert_eq!(
        decrease_spot_open_bids_and_asks(&mut position, &PositionDirection::Short, 1),
        Err(ErrorCode::MathError)
    );
    assert_eq!(position, start);
}
