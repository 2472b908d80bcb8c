//! The balance ledger of a spot market: every move of tokens changes the
//! balance of one position and the pooled balance of its market by the same
//! amount.
//!
//! A deposit adds to what a position holds or pays back what it owes; a
//! borrow takes from what it holds or adds to what it owes. A move that is
//! larger than the position closes it out and opens the rest on the other
//! side. A borrow must leave the market with at least as many tokens held as
//! owed.
use vstd::prelude::*;
use crate::error::ErrorCode;
use crate::math::spot_balance::{
    get_spot_balance, get_token_amount, lemma_token_value_is_monotone, scaled_balance,
    token_value,
};
use crate::state::spot_market::{SpotBalanceType, SpotMarket};
use crate::state::user::SpotPosition;

verus! {

/// The market with the pooled balance of one side replaced.
pub open spec fn with_pooled_balance(
    spot_market: SpotMarket,
    balance_type: SpotBalanceType,
    balance: u128,
) -> SpotMarket {
    match balance_type {
        SpotBalanceType::Deposit => SpotMarket { deposit_balance: balance, ..spot_market },
        SpotBalanceType::Borrow => SpotMarket { borrow_balance: balance, ..spot_market },
    }
}

/// Market and position after the position has taken the given side and its
/// balance and the pooled balance of that side have grown by `delta`.
/// `MathError` where one of the two would not fit unsigned 128 bits.
pub open spec fn increased(
    spot_market: SpotMarket,
    spot_position: SpotPosition,
    balance_type: SpotBalanceType,
    delta: u128,
) -> Result<(SpotMarket, SpotPosition), ErrorCode> {
    if spot_position.balance + delta > u128::MAX || spot_market.pooled_balance(balance_type)
        + delta > u128::MAX {
        Err(ErrorCode::MathError)
    } else {
        Ok(
            (
                with_pooled_balance(
                    spot_market,
                    balance_type,
                    (spot_market.pooled_balance(balance_type) + delta) as u128,
                ),
                SpotPosition {
                    balance_type,
                    balance: (spot_position.balance + delta) as u128,
                    ..spot_position
                },
            ),
        )
    }
}

/// Market and position after the balance of the position and the pooled
/// balance of its side have shrunk by `delta`. `MathError` where one of the
/// two is smaller than `delta`.
pub open spec fn decreased(
    spot_market: SpotMarket,
    spot_position: SpotPosition,
    delta: u128,
) -> Result<(SpotMarket, SpotPosition), ErrorCode> {
    let balance_type = spot_position.balance_type;
    if spot_position.balance < delta || spot_market.pooled_balance(balance_type) < delta {
        Err(ErrorCode::MathError)
    } else {
        Ok(
            (
                with_pooled_balance(
                    spot_market,
                    balance_type,
                    (spot_market.pooled_balance(balance_type) - delta) as u128,
                ),
                SpotPosition { balance: (spot_position.balance - delta) as u128, ..spot_position },
            ),
        )
    }
}

/// Market and position after `token_amount` tokens have moved in the given
/// direction, before the market is asked whether it can afford the move.
///
/// * On the side that the position is on already, its balance grows; what
///   is owed is rounded up.
/// * Against a position that is worth more than the tokens, its balance
///   shrinks; what is owed is rounded up, what is held only on demand.
/// * Otherwise the position is closed out, with whatever was left on it that
///   was worth less than a token, and the tokens that exceed its worth open a
///   balance on the other side. A move of no tokens changes nothing.
pub open spec fn balance_moved(
    token_amount: u128,
    update_direction: SpotBalanceType,
    spot_market: SpotMarket,
    spot_position: SpotPosition,
    force_round_up: bool,
) -> Result<(SpotMarket, SpotPosition), ErrorCode> {
    let held = spot_position.balance_type;
    if update_direction == held {
        match scaled_balance(
            token_amount,
            spot_market,
            update_direction,
            update_direction is Borrow,
        ) {
            Err(error) => Err(error),
            Ok(delta) => increased(spot_market, spot_position, update_direction, delta),
        }
    } else {
        match token_value(spot_position.balance, spot_market, held) {
            Err(error) => Err(error),
            Ok(worth) => if worth > token_amount {
                match scaled_balance(
                    token_amount,
                    spot_market,
                    held,
                    force_round_up || held is Borrow,
                ) {
                    Err(error) => Err(error),
                    Ok(delta) => decreased(spot_market, spot_position, delta),
                }
            } else if token_amount == 0 {
                Ok((spot_market, spot_position))
            } else {
                match decreased(spot_market, spot_position, spot_position.balance) {
                    Err(error) => Err(error),
                    Ok((market, position)) => if token_amount == worth {
                        Ok((market, position))
                    } else {
                        match scaled_balance(
                            (token_amount - worth) as u128,
                            market,
                            update_direction,
                            update_direction is Borrow,
                        ) {
                            Err(error) => Err(error),
                            Ok(delta) => increased(market, position, update_direction, delta),
                        }
                    },
                }
            },
        }
    }
}

/// Why the market cannot afford what it owes, if it cannot: the tokens held
/// or owed cannot be computed, or fewer tokens are held than owed.
pub open spec fn solvency_error(spot_market: SpotMarket) -> Option<ErrorCode> {
    match token_value(spot_market.deposit_balance, spot_market, SpotBalanceType::Deposit) {
        Err(error) => Some(error),
        Ok(deposits) => match token_value(
            spot_market.borrow_balance,
            spot_market,
            SpotBalanceType::Borrow,
        ) {
            Err(error) => Some(error),
            Ok(borrows) => if deposits >= borrows {
                None
            } else {
                Some(ErrorCode::SpotMarketInsufficientDeposits)
            },
        },
    }
}

/// Market and position after the move of `token_amount` tokens in the given
/// direction, or the error that refuses the move. A borrow is refused where it
/// would leave the market owing more tokens than it holds.
pub open spec fn spot_balances_after(
    token_amount: u128,
    update_direction: SpotBalanceType,
    spot_market: SpotMarket,
    spot_position: SpotPosition,
    force_round_up: bool,
) -> Result<(SpotMarket, SpotPosition), ErrorCode> {
    match balance_moved(
        token_amount,
        update_direction,
        spot_market,
        spot_position,
        force_round_up,
    ) {
        Err(error) => Err(error),
        Ok((market, position)) => match update_direction {
            SpotBalanceType::Deposit => Ok((market, position)),
            SpotBalanceType::Borrow => match solvency_error(market) {
                Some(error) => Err(error),
                None => Ok((market, position)),
            },
        },
    }
}

/// Computes `increased`.
fn increase_balances(
    spot_market: SpotMarket,
    spot_position: SpotPosition,
    balance_type: SpotBalanceType,
    delta: u128,
) -> (r: Result<(SpotMarket, SpotPosition), ErrorCode>)
    ensures
        r == increased(spot_market, spot_position, balance_type, delta),
{
    let mut market: SpotMarket = spot_market;
    let mut position: SpotPosition = spot_position;
    position.balance_type = balance_type;
    position.balance = position.balance.checked_add(delta).ok_or(ErrorCode::MathError)?;
    match balance_type {
        SpotBalanceType::Deposit => {
            market.deposit_balance = market.deposit_balance.checked_add(delta).ok_or(
                ErrorCode::MathError,
            )?;
        },
        SpotBalanceType::Borrow => {
            market.borrow_balance = market.borrow_balance.checked_add(delta).ok_or(
                ErrorCode::MathError,
            )?;
        },
    }
    Ok((market, position))
}

/// Computes `decreased`.
fn decrease_balances(spot_market: SpotMarket, spot_position: SpotPosition, delta: u128) -> (r:
    Result<(SpotMarket, SpotPosition), ErrorCode>)
    ensures
        r == decreased(spot_market, spot_position, delta),
{
    let mut market: SpotMarket = spot_market;
    let mut position: SpotPosition = spot_position;
    match position.balance_type {
        SpotBalanceType::Deposit => {
            market.deposit_balance = market.deposit_balance.checked_sub(delta).ok_or(
                ErrorCode::MathError,
            )?;
        },
        SpotBalanceType::Borrow => {
            market.borrow_balance = market.borrow_balance.checked_sub(delta).ok_or(
                ErrorCode::MathError,
            )?;
        },
    }
    position.balance = position.balance.checked_sub(delta).ok_or(ErrorCode::MathError)?;
    Ok((market, position))
}

/// Computes `balance_moved`.
fn move_balance(
    token_amount: u128,
    update_direction: SpotBalanceType,
    spot_market: SpotMarket,
    spot_position: SpotPosition,
    force_round_up: bool,
) -> (r: Result<(SpotMarket, SpotPosition), ErrorCode>)
    ensures
        r == balance_moved(
            token_amount,
            update_direction,
            spot_market,
            spot_position,
            force_round_up,
        ),
{
    let held: SpotBalanceType = spot_position.balance_type;
    let borrowing: bool = update_direction == SpotBalanceType::Borrow;
    if update_direction == held {
        let delta: u128 = get_spot_balance(token_amount, &spot_market, &update_direction, borrowing)?;
        return increase_balances(spot_market, spot_position, update_direction, delta);
    }
    let worth: u128 = get_token_amount(spot_position.balance, &spot_market, &held)?;
    if worth > token_amount {
        let round_up: bool = force_round_up || held == SpotBalanceType::Borrow;
        let delta: u128 = get_spot_balance(token_amount, &spot_market, &held, round_up)?;
        return decrease_balances(spot_market, spot_position, delta);
    }
    if token_amount == 0 {
        return Ok((spot_market, spot_position));
    }
    let (market, position) = decrease_balances(spot_market, spot_position, spot_position.balance)?;
    if token_amount == worth {
        return Ok((market, position));
    }
    let delta: u128 = get_spot_balance(token_amount - worth, &market, &update_direction, borrowing)?;
    increase_balances(market, position, update_direction, delta)
}

/// Checks that the market holds at least as many tokens as it owes.
fn validate_solvency(spot_market: &SpotMarket) -> (r: Result<(), ErrorCode>)
    ensures
        r == (match solvency_error(*spot_market) {
            Some(error) => Err::<(), ErrorCode>(error),
            None => Ok::<(), ErrorCode>(()),
        }),
{
    let deposit_token_amount: u128 = get_token_amount(
        spot_market.deposit_balance,
        spot_market,
        &SpotBalanceType::Deposit,
    )?;
    let borrow_token_amount: u128 = get_token_amount(
        spot_market.borrow_balance,
        spot_market,
        &SpotBalanceType::Borrow,
    )?;
    if deposit_token_amount >= borrow_token_amount {
        Ok(())
    } else {
        Err(ErrorCode::SpotMarketInsufficientDeposits)
    }
}

/// Moves `token_amount` tokens in the given direction between a market and a
/// position of it. On an error neither is changed.
pub fn update_spot_balances(
    token_amount: u128,
    update_direction: &SpotBalanceType,
    spot_market: &mut SpotMarket,
    spot_position: &mut SpotPosition,
    force_round_up: bool,
) -> (r: Result<(), ErrorCode>)
    ensures
        match spot_balances_after(
            token_amount,
            *update_direction,
            *old(spot_market),
            *old(spot_position),
            force_round_up,
        ) {
            Ok((market, position)) => {
                &&& r is Ok
                &&& *final(spot_market) == market
                &&& *final(spot_position) == position
            },
            Err(error) => {
                &&& r == Err::<(), ErrorCode>(error)
                &&& *final(spot_market) == *old(spot_market)
                &&& *final(spot_position) == *old(spot_position)
            },
        },
        r matches Err(error) ==> error is MathError || (*update_direction is Borrow
            && error is SpotMarketInsufficientDeposits),
{
    let (market, position) = move_balance(
        token_amount,
        *update_direction,
        *spot_market,
        *spot_position,
        force_round_up,
    )?;
    if *update_direction == SpotBalanceType::Borrow {
        validate_solvency(&market)?;
    }
    *spot_market = market;
    *spot_position = position;
    Ok(())
}

/// Market and position move in tandem. A move that succeeds leaves the
/// configuration of the market, well-formed if it was, and everything about
/// the position but its balance as they were, and changes the pooled deposits less the pooled
/// borrows of the market by exactly what it changes the signed balance of the
/// position by. A deposit never lowers that balance and a borrow never raises
/// it; after a borrow the market holds at least as many tokens as it owes.
pub proof fn lemma_balances_move_in_tandem(
    token_amount: u128,
    update_direction: SpotBalanceType,
    spot_market: SpotMarket,
    spot_position: SpotPosition,
    force_round_up: bool,
)
    requires
        spot_balances_after(
            token_amount,
            update_direction,
            spot_market,
            spot_position,
            force_round_up,
        ) is Ok,
    ensures
        ({
            let (market, position) = spot_balances_after(
                token_amount,
                update_direction,
                spot_market,
                spot_position,
                force_round_up,
            )->Ok_0;
            &&& spot_market.same_configuration(market)
            &&& spot_market.well_formed() ==> market.well_formed()
            &&& position == (SpotPosition {
                balance_type: position.balance_type,
                balance: position.balance,
                ..spot_position
            })
            &&& market.net_balance() - spot_market.net_balance() == position.signed_balance()
                - spot_position.signed_balance()
            &&& update_direction is Deposit ==> position.signed_balance()
                >= spot_position.signed_balance()
            &&& update_direction is Borrow ==> position.signed_balance()
                <= spot_position.signed_balance()
            &&& update_direction is Borrow ==> solvency_error(market) is None
        }),
{
}

/// A deposit keeps a market solvent. Where a market holds at least as many
/// tokens as it owes, it still does after a deposit that succeeds, as long as
/// what it holds afterwards can be counted in tokens at all.
pub proof fn lemma_deposit_keeps_market_solvent(
    token_amount: u128,
    spot_market: SpotMarket,
    spot_position: SpotPosition,
    force_round_up: bool,
)
    requires
        solvency_error(spot_market) is None,
        spot_balances_after(
            token_amount,
            SpotBalanceType::Deposit,
            spot_market,
            spot_position,
            force_round_up,
        ) matches Ok((market, _)) && token_value(
            market.deposit_balance,
            market,
            SpotBalanceType::Deposit,
        ) is Ok,
    ensures
        spot_balances_after(
            token_amount,
            SpotBalanceType::Deposit,
            spot_market,
            spot_position,
            force_round_up,
        ) matches Ok((market, _)) && solvency_error(market) is None,
{
    let (market, _) = spot_balances_after(
        token_amount,
        SpotBalanceType::Deposit,
        spot_market,
        spot_position,
        force_round_up,
    )->Ok_0;
    lemma_balances_move_in_tandem(
        token_amount,
        SpotBalanceType::Deposit,
        spot_market,
        spot_position,
        force_round_up,
    );
    // a deposit adds to what the market holds and takes from what it owes
    assert(spot_market.deposit_balance <= market.deposit_balance);
    assert(market.borrow_balance <= spot_market.borrow_balance);
    lemma_token_value_is_monotone(
        spot_market.deposit_balance,
        market.deposit_balance,
        market,
        SpotBalanceType::Deposit,
    );
    lemma_token_value_is_monotone(
        market.borrow_balance,
        spot_market.borrow_balance,
        spot_market,
        SpotBalanceType::Borrow,
    );
    assert(token_value(spot_market.deposit_balance, market, SpotBalanceType::Deposit)
        == token_value(spot_market.deposit_balance, spot_market, SpotBalanceType::Deposit));
    assert(token_value(market.borrow_balance, market, SpotBalanceType::Borrow) == token_value(
        market.borrow_balance,
        spot_market,
        SpotBalanceType::Borrow,
    ));
}

} // verus!
