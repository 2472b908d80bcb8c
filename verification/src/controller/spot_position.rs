//! What happens to the position of an account in a spot market: orders are
//! placed and removed, tokens are deposited, borrowed and handed on to
//! another account.
//!
//! An operation on one position either succeeds or leaves market and position
//! as they were. A transfer consists of two such operations and is not
//! atomic as a whole: where the second fails, the first stays, and the caller
//! has to discard both.
use vstd::prelude::*;
use crate::controller::position::PositionDirection;
use crate::controller::spot_balance::{
    lemma_balances_move_in_tandem, spot_balances_after, update_spot_balances,
};
use crate::error::ErrorCode;
use crate::math::casting::cast_to_i64;
use crate::math::spot_balance::{
    lemma_no_balance_is_worth_nothing, lemma_no_tokens_make_no_balance, token_value,
};
use crate::math::constants::SPOT_BALANCE_DECIMALS;
use crate::state::spot_market::{SpotBalanceType, SpotMarket};
use crate::state::user::SpotPosition;

verus! {

/// The position after an order of the given direction with
/// `base_asset_amount_unfilled` still to fill has been placed: a buy order
/// adds to the open bids, a sell order takes from the open asks. `MathError`
/// where the bids would exceed 64 bits or the asks would fall below zero.
pub open spec fn open_bids_and_asks_increased(
    spot_position: SpotPosition,
    direction: PositionDirection,
    base_asset_amount_unfilled: u64,
) -> Result<SpotPosition, ErrorCode> {
    match direction {
        PositionDirection::Long => if spot_position.open_bids + base_asset_amount_unfilled
            > u64::MAX {
            Err(ErrorCode::MathError)
        } else {
            Ok(
                SpotPosition {
                    open_bids: (spot_position.open_bids + base_asset_amount_unfilled) as u64,
                    ..spot_position
                },
            )
        },
        PositionDirection::Short => if spot_position.open_asks < base_asset_amount_unfilled {
            Err(ErrorCode::MathError)
        } else {
            Ok(
                SpotPosition {
                    open_asks: (spot_position.open_asks - base_asset_amount_unfilled) as u64,
                    ..spot_position
                },
            )
        },
    }
}

/// The position after an order of the given direction with
/// `base_asset_amount_unfilled` still to fill has been removed: a buy order
/// takes from the open bids, a sell order adds to the open asks. `MathError`
/// where the bids would fall below zero or the asks would exceed 64 bits.
pub open spec fn open_bids_and_asks_decreased(
    spot_position: SpotPosition,
    direction: PositionDirection,
    base_asset_amount_unfilled: u64,
) -> Result<SpotPosition, ErrorCode> {
    match direction {
        PositionDirection::Long => if spot_position.open_bids < base_asset_amount_unfilled {
            Err(ErrorCode::MathError)
        } else {
            Ok(
                SpotPosition {
                    open_bids: (spot_position.open_bids - base_asset_amount_unfilled) as u64,
                    ..spot_position
                },
            )
        },
        PositionDirection::Short => if spot_position.open_asks + base_asset_amount_unfilled
            > u64::MAX {
            Err(ErrorCode::MathError)
        } else {
            Ok(
                SpotPosition {
                    open_asks: (spot_position.open_asks + base_asset_amount_unfilled) as u64,
                    ..spot_position
                },
            )
        },
    }
}

/// Records that an order has been placed. On an error the position is
/// unchanged.
pub fn increase_spot_open_bids_and_asks(
    spot_position: &mut SpotPosition,
    direction: &PositionDirection,
    base_asset_amount_unfilled: u64,
) -> (r: Result<(), ErrorCode>)
    ensures
        match open_bids_and_asks_increased(
            *old(spot_position),
            *direction,
            base_asset_amount_unfilled,
        ) {
            Ok(position) => r is Ok && *final(spot_position) == position,
            Err(error) => r == Err::<(), ErrorCode>(error) && *final(spot_position) == *old(
                spot_position,
            ),
        },
        r matches Err(error) ==> error.is_arithmetic(),
{
    match direction {
        PositionDirection::Long => {
            let open_bids: u64 = spot_position.open_bids.checked_add(
                base_asset_amount_unfilled,
            ).ok_or(ErrorCode::MathError)?;
            spot_position.open_bids = open_bids;
        },
        PositionDirection::Short => {
            let open_asks: u64 = spot_position.open_asks.checked_sub(
                base_asset_amount_unfilled,
            ).ok_or(ErrorCode::MathError)?;
            spot_position.open_asks = open_asks;
        },
    }
    Ok(())
}

/// Records that an order has been removed. On an error the position is
/// unchanged.
pub fn decrease_spot_open_bids_and_asks(
    spot_position: &mut SpotPosition,
    direction: &PositionDirection,
    base_asset_amount_unfilled: u64,
) -> (r: Result<(), ErrorCode>)
    ensures
        match open_bids_and_asks_decreased(
            *old(spot_position),
            *direction,
            base_asset_amount_unfilled,
        ) {
            Ok(position) => r is Ok && *final(spot_position) == position,
            Err(error) => r == Err::<(), ErrorCode>(error) && *final(spot_position) == *old(
                spot_position,
            ),
        },
        r matches Err(error) ==> error.is_arithmetic(),
{
    match direction {
        PositionDirection::Long => {
            let open_bids: u64 = spot_position.open_bids.checked_sub(
                base_asset_amount_unfilled,
            ).ok_or(ErrorCode::MathError)?;
            spot_position.open_bids = open_bids;
        },
        PositionDirection::Short => {
            let open_asks: u64 = spot_position.open_asks.checked_add(
                base_asset_amount_unfilled,
            ).ok_or(ErrorCode::MathError)?;
            spot_position.open_asks = open_asks;
        },
    }
    Ok(())
}

/// Removing an order undoes placing it: wherever an order can be placed,
/// removing the same order afterwards succeeds and gives the position back as
/// it was.
pub proof fn lemma_decrease_undoes_increase(
    spot_position: SpotPosition,
    direction: PositionDirection,
    base_asset_amount_unfilled: u64,
)
    requires
        open_bids_and_asks_increased(spot_position, direction, base_asset_amount_unfilled) is Ok,
    ensures
        open_bids_and_asks_decreased(
            open_bids_and_asks_increased(
                spot_position,
                direction,
                base_asset_amount_unfilled,
            )->Ok_0,
            direction,
            base_asset_amount_unfilled,
        ) == Ok::<SpotPosition, ErrorCode>(spot_position),
{
}

/// Placing an order undoes removing it.
pub proof fn lemma_increase_undoes_decrease(
    spot_position: SpotPosition,
    direction: PositionDirection,
    base_asset_amount_unfilled: u64,
)
    requires
        open_bids_and_asks_decreased(spot_position, direction, base_asset_amount_unfilled) is Ok,
    ensures
        open_bids_and_asks_increased(
            open_bids_and_asks_decreased(
                spot_position,
                direction,
                base_asset_amount_unfilled,
            )->Ok_0,
            direction,
            base_asset_amount_unfilled,
        ) == Ok::<SpotPosition, ErrorCode>(spot_position),
{
}

/// The running total of deposits less borrows after `token_amount` tokens
/// have moved in the given direction. `CastingFailure` where the tokens do not
/// fit signed 64 bits, `MathError` where the total does not.
pub open spec fn cumulative_deposits_after(
    cumulative_deposits: i64,
    update_direction: SpotBalanceType,
    token_amount: u128,
) -> Result<i64, ErrorCode> {
    let total = match update_direction {
        SpotBalanceType::Deposit => cumulative_deposits + token_amount,
        SpotBalanceType::Borrow => cumulative_deposits - token_amount,
    };
    if token_amount > i64::MAX {
        Err(ErrorCode::CastingFailure)
    } else if total < i64::MIN || total > i64::MAX {
        Err(ErrorCode::MathError)
    } else {
        Ok(total as i64)
    }
}

/// Market and position after a deposit or a borrow of `token_amount` tokens:
/// the balances have moved as `spot_balances_after` says, and the running total
/// of the position has followed. The first error on the way refuses the whole
/// operation.
pub open spec fn spot_position_balance_after(
    token_amount: u128,
    update_direction: SpotBalanceType,
    spot_market: SpotMarket,
    spot_position: SpotPosition,
    force_round_up: bool,
) -> Result<(SpotMarket, SpotPosition), ErrorCode> {
    match spot_balances_after(
        token_amount,
        update_direction,
        spot_market,
        spot_position,
        force_round_up,
    ) {
        Err(error) => Err(error),
        Ok((market, position)) => match cumulative_deposits_after(
            position.cumulative_deposits,
            update_direction,
            token_amount,
        ) {
            Err(error) => Err(error),
            Ok(cumulative_deposits) => Ok(
                (market, SpotPosition { cumulative_deposits, ..position }),
            ),
        },
    }
}

/// Deposits or borrows `token_amount` tokens on a position. Either the
/// balances of market and position and the running total of the position all
/// change, or, on an error, nothing does.
pub fn update_spot_position_balance(
    token_amount: u128,
    update_direction: &SpotBalanceType,
    spot_market: &mut SpotMarket,
    spot_position: &mut SpotPosition,
    force_round_up: bool,
) -> (r: Result<(), ErrorCode>)
    ensures
        match spot_position_balance_after(
            token_amount,
            *update_direction,
            *old(spot_market),
            *old(spot_position),
            force_round_up,
        ) {
            Ok((market, position)) => {
                &&& r is Ok
                &&& *final(spot_market) == market
                &&& *final(spot_position) == position
            },
            Err(error) => {
                &&& r == Err::<(), ErrorCode>(error)
                &&& *final(spot_market) == *old(spot_market)
                &&& *final(spot_position) == *old(spot_position)
            },
        },
        r matches Err(error) ==> error.is_arithmetic() || (*update_direction is Borrow
            && error is SpotMarketInsufficientDeposits),
{
    let mut market: SpotMarket = *spot_market;
    let mut position: SpotPosition = *spot_position;
    update_spot_balances(
        token_amount,
        update_direction,
        &mut market,
        &mut position,
        force_round_up,
    )?;

    let amount: i64 = cast_to_i64(token_amount)?;
    let cumulative_deposits: i64 = match update_direction {
        SpotBalanceType::Deposit => position.cumulative_deposits.checked_add(amount),
        SpotBalanceType::Borrow => position.cumulative_deposits.checked_sub(amount),
    }.ok_or(ErrorCode::MathError)?;
    position.cumulative_deposits = cumulative_deposits;

    *spot_market = market;
    *spot_position = position;
    Ok(())
}

/// Market and the two positions after `token_amount` tokens of the first
/// position have been handed on to the second: a borrow on the first, then a
/// deposit on the second, on the market as the borrow left it, neither rounded
/// up on demand. `MarketIndexMismatch` where the positions belong to different
/// markets; otherwise the error of the first of the two steps that fails.
pub open spec fn transfer_after(
    token_amount: u128,
    spot_market: SpotMarket,
    from_spot_position: SpotPosition,
    to_spot_position: SpotPosition,
) -> Result<(SpotMarket, SpotPosition, SpotPosition), ErrorCode> {
    if from_spot_position.market_index != to_spot_position.market_index {
        Err(ErrorCode::MarketIndexMismatch)
    } else {
        match spot_position_balance_after(
            token_amount,
            SpotBalanceType::Borrow,
            spot_market,
            from_spot_position,
            false,
        ) {
            Err(error) => Err(error),
            Ok((market, from_position)) => match spot_position_balance_after(
                token_amount,
                SpotBalanceType::Deposit,
                market,
                to_spot_position,
                false,
            ) {
                Err(error) => Err(error),
                Ok((market, to_position)) => Ok((market, from_position, to_position)),
            },
        }
    }
}

/// What a transfer leaves of market and first position when it fails: both
/// as the borrow left them where the borrow was made, and both as they were
/// where it was not.
pub open spec fn failed_transfer_leaves(
    token_amount: u128,
    spot_market: SpotMarket,
    from_spot_position: SpotPosition,
    to_spot_position: SpotPosition,
) -> (SpotMarket, SpotPosition) {
    if from_spot_position.market_index != to_spot_position.market_index {
        (spot_market, from_spot_position)
    } else {
        match spot_position_balance_after(
            token_amount,
            SpotBalanceType::Borrow,
            spot_market,
            from_spot_position,
            false,
        ) {
            Err(_) => (spot_market, from_spot_position),
            Ok(borrowed) => borrowed,
        }
    }
}

/// Hands `token_amount` tokens of one position on to another position of the
/// same market.
///
/// Positions of different markets are refused before anything changes. The
/// second position changes only when the whole transfer succeeds. Market and
/// first position are not restored when the deposit on the second position
/// fails after the borrow on the first was made: the caller has to discard
/// them.
pub fn transfer_spot_position_deposit(
    token_amount: u128,
    spot_market: &mut SpotMarket,
    from_spot_position: &mut SpotPosition,
    to_spot_position: &mut SpotPosition,
) -> (r: Result<(), ErrorCode>)
    ensures
        match transfer_after(
            token_amount,
            *old(spot_market),
            *old(from_spot_position),
            *old(to_spot_position),
        ) {
            Ok((market, from_position, to_position)) => {
                &&& r is Ok
                &&& *final(spot_market) == market
                &&& *final(from_spot_position) == from_position
                &&& *final(to_spot_position) == to_position
            },
            Err(error) => {
                &&& r == Err::<(), ErrorCode>(error)
                &&& (*final(spot_market), *final(from_spot_position)) == failed_transfer_leaves(
                    token_amount,
                    *old(spot_market),
                    *old(from_spot_position),
                    *old(to_spot_position),
                )
                &&& *final(to_spot_position) == *old(to_spot_position)
            },
        },
        old(from_spot_position).market_index != old(to_spot_position).market_index ==> {
            &&& r == Err::<(), ErrorCode>(ErrorCode::MarketIndexMismatch)
            &&& *final(spot_market) == *old(spot_market)
            &&& *final(from_spot_position) == *old(from_spot_position)
            &&& *final(to_spot_position) == *old(to_spot_position)
        },
        r matches Err(error) ==> error.is_arithmetic() || error is SpotMarketInsufficientDeposits
            || error is MarketIndexMismatch,
{
    if from_spot_position.market_index != to_spot_position.market_index {
        return Err(ErrorCode::MarketIndexMismatch);
    }
    update_spot_position_balance(
        token_amount,
        &SpotBalanceType::Borrow,
        spot_market,
        from_spot_position,
        false,
    )?;
    update_spot_position_balance(
        token_amount,
        &SpotBalanceType::Deposit,
        spot_market,
        to_spot_position,
        false,
    )?;
    Ok(())
}

/// A deposit or a borrow that succeeds moves the running total of the
/// position by the tokens moved, up for a deposit and down for a borrow, and
/// otherwise does what `lemma_balances_move_in_tandem` says of the balances.
pub proof fn lemma_position_balance_moves_in_tandem(
    token_amount: u128,
    update_direction: SpotBalanceType,
    spot_market: SpotMarket,
    spot_position: SpotPosition,
    force_round_up: bool,
)
    requires
        spot_position_balance_after(
            token_amount,
            update_direction,
            spot_market,
            spot_position,
            force_round_up,
        ) is Ok,
    ensures
        ({
            let (market, position) = spot_position_balance_after(
                token_amount,
                update_direction,
                spot_market,
                spot_position,
                force_round_up,
            )->Ok_0;
            &&& spot_market.same_configuration(market)
            &&& position.market_index == spot_position.market_index
            &&& position.open_bids == spot_position.open_bids
            &&& position.open_asks == spot_position.open_asks
            &&& update_direction is Deposit ==> position.cumulative_deposits
                == spot_position.cumulative_deposits + token_amount
            &&& update_direction is Borrow ==> position.cumulative_deposits
                == spot_position.cumulative_deposits - token_amount
            &&& market.net_balance() - spot_market.net_balance() == position.signed_balance()
                - spot_position.signed_balance()
            &&& update_direction is Deposit ==> position.signed_balance()
                >= spot_position.signed_balance()
            &&& update_direction is Borrow ==> position.signed_balance()
                <= spot_position.signed_balance()
        }),
{
    lemma_balances_move_in_tandem(
        token_amount,
        update_direction,
        spot_market,
        spot_position,
        force_round_up,
    );
}

/// A deposit of some tokens followed by a borrow of as many brings the
/// running total of the position back to where it was.
pub proof fn lemma_deposit_then_borrow_restores_cumulative_deposits(
    token_amount: u128,
    spot_market: SpotMarket,
    spot_position: SpotPosition,
    deposit_rounds_up: bool,
    borrow_rounds_up: bool,
)
    requires
        spot_position_balance_after(
            token_amount,
            SpotBalanceType::Deposit,
            spot_market,
            spot_position,
            deposit_rounds_up,
        ) matches Ok((market, position)) && spot_position_balance_after(
            token_amount,
            SpotBalanceType::Borrow,
            market,
            position,
            borrow_rounds_up,
        ) is Ok,
    ensures
        spot_position_balance_after(
            token_amount,
            SpotBalanceType::Deposit,
            spot_market,
            spot_position,
            deposit_rounds_up,
        ) matches Ok((market, position)) && spot_position_balance_after(
            token_amount,
            SpotBalanceType::Borrow,
            market,
            position,
            borrow_rounds_up,
        ) matches Ok((_, restored)) && restored.cumulative_deposits
            == spot_position.cumulative_deposits,
{
    let (market, position) = spot_position_balance_after(
        token_amount,
        SpotBalanceType::Deposit,
        spot_market,
        spot_position,
        deposit_rounds_up,
    )->Ok_0;
    lemma_position_balance_moves_in_tandem(
        token_amount,
        SpotBalanceType::Deposit,
        spot_market,
        spot_position,
        deposit_rounds_up,
    );
    lemma_position_balance_moves_in_tandem(
        token_amount,
        SpotBalanceType::Borrow,
        market,
        position,
        borrow_rounds_up,
    );
}

/// A transfer moves tokens and creates none. Where it succeeds, the running
/// totals of the two positions add up to what they added up to before, and the
/// signed balances of the two positions change, taken together, by exactly what
/// the pooled deposits less the pooled borrows of the market change by. The
/// first position never gains and the second never loses.
pub proof fn lemma_transfer_conserves_tokens(
    token_amount: u128,
    spot_market: SpotMarket,
    from_spot_position: SpotPosition,
    to_spot_position: SpotPosition,
)
    requires
        transfer_after(token_amount, spot_market, from_spot_position, to_spot_position) is Ok,
    ensures
        ({
            let (market, from_position, to_position) = transfer_after(
                token_amount,
                spot_market,
                from_spot_position,
                to_spot_position,
            )->Ok_0;
            &&& from_position.cumulative_deposits + to_position.cumulative_deposits
                == from_spot_position.cumulative_deposits + to_spot_position.cumulative_deposits
            &&& (from_position.signed_balance() + to_position.signed_balance()) - (
            from_spot_position.signed_balance() + to_spot_position.signed_balance())
                == market.net_balance() - spot_market.net_balance()
            &&& from_position.signed_balance() <= from_spot_position.signed_balance()
            &&& to_position.signed_balance() >= to_spot_position.signed_balance()
            &&& spot_market.same_configuration(market)
        }),
{
    let (borrowed_market, from_position) = spot_position_balance_after(
        token_amount,
        SpotBalanceType::Borrow,
        spot_market,
        from_spot_position,
        false,
    )->Ok_0;
    lemma_position_balance_moves_in_tandem(
        token_amount,
        SpotBalanceType::Borrow,
        spot_market,
        from_spot_position,
        false,
    );
    lemma_position_balance_moves_in_tandem(
        token_amount,
        SpotBalanceType::Deposit,
        borrowed_market,
        to_spot_position,
        false,
    );
}

/// Whether a transfer stays on one side of the market: no tokens move at
/// all; or the first position holds a deposit that is worth more than the
/// tokens, and the second holds a deposit or nothing; or the second position
/// owes a borrow that is worth more than the tokens, and the first owes a
/// borrow or nothing. Then both steps of the transfer convert the tokens at the
/// same interest and round them the same way.
pub open spec fn transfer_stays_on_one_side(
    token_amount: u128,
    spot_market: SpotMarket,
    from_spot_position: SpotPosition,
    to_spot_position: SpotPosition,
) -> bool {
    ||| token_amount == 0
    ||| {
        &&& from_spot_position.balance_type is Deposit
        &&& token_value(from_spot_position.balance, spot_market, SpotBalanceType::Deposit)
            matches Ok(worth) && worth > token_amount
        &&& to_spot_position.balance_type is Deposit || to_spot_position.balance == 0
    }
    ||| {
        &&& to_spot_position.balance_type is Borrow
        &&& token_value(to_spot_position.balance, spot_market, SpotBalanceType::Borrow)
            matches Ok(worth) && worth > token_amount
        &&& from_spot_position.balance_type is Borrow || from_spot_position.balance == 0
    }
}

/// A transfer that stays on one side of the market conserves the balances.
/// Where it succeeds, it takes from the signed balance of the first position
/// exactly what it adds to the signed balance of the second, so that the two
/// add up to what they added up to before, and the pooled balances of the
/// market are what they were.
///
/// A transfer that takes a position across zero, or that pays back a borrow
/// out of a deposit, converts the tokens twice, at the interest and with the
/// rounding of either side: there the balances follow
/// `lemma_transfer_conserves_tokens` and no more.
pub proof fn lemma_transfer_on_one_side_conserves_balances(
    token_amount: u128,
    spot_market: SpotMarket,
    from_spot_position: SpotPosition,
    to_spot_position: SpotPosition,
)
    requires
        transfer_after(token_amount, spot_market, from_spot_position, to_spot_position) is Ok,
        transfer_stays_on_one_side(token_amount, spot_market, from_spot_position, to_spot_position),
    ensures
        ({
            let (market, from_position, to_position) = transfer_after(
                token_amount,
                spot_market,
                from_spot_position,
                to_spot_position,
            )->Ok_0;
            &&& from_position.signed_balance() + to_position.signed_balance()
                == from_spot_position.signed_balance() + to_spot_position.signed_balance()
            &&& market.deposit_balance == spot_market.deposit_balance
            &&& market.borrow_balance == spot_market.borrow_balance
        }),
{
    let (borrowed_market, from_position) = spot_position_balance_after(
        token_amount,
        SpotBalanceType::Borrow,
        spot_market,
        from_spot_position,
        false,
    )->Ok_0;
    lemma_position_balance_moves_in_tandem(
        token_amount,
        SpotBalanceType::Borrow,
        spot_market,
        from_spot_position,
        false,
    );
    lemma_position_balance_moves_in_tandem(
        token_amount,
        SpotBalanceType::Deposit,
        borrowed_market,
        to_spot_position,
        false,
    );
    if spot_market.decimals <= SPOT_BALANCE_DECIMALS {
        // a position that is empty is worth nothing, whatever side it is marked as
        lemma_no_balance_is_worth_nothing(spot_market, SpotBalanceType::Deposit);
        lemma_no_balance_is_worth_nothing(borrowed_market, SpotBalanceType::Borrow);
        if token_amount == 0 {
            if spot_market.cumulative_deposit_interest > 0 {
                lemma_no_tokens_make_no_balance(spot_market, SpotBalanceType::Deposit, false);
                lemma_no_tokens_make_no_balance(borrowed_market, SpotBalanceType::Deposit, false);
            }
            if spot_market.cumulative_borrow_interest > 0 {
                lemma_no_tokens_make_no_balance(spot_market, SpotBalanceType::Borrow, true);
                lemma_no_tokens_make_no_balance(borrowed_market, SpotBalanceType::Borrow, true);
            }
        }
    }
}

} // verus!
