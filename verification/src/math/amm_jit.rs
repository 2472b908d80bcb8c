//! Sizing of just-in-time liquidity: how much of a resting maker order the
//! automated market maker fills itself.
//!
//! The maker never takes more than half of the order, and an eighth when the
//! auction price is on the wrong side of the oracle price, which is how a wash
//! trade looks. Within that cap it takes the whole order when its curve is
//! imbalanced and a quarter otherwise, scaled by the configured intensity and
//! never beyond its own inventory, so that the fill cannot turn its position
//! around. The result is rounded down to the step size of the market.
use vstd::prelude::*;
use vstd::math::{abs, max, min};
use crate::controller::position::PositionDirection;
use crate::error::ErrorCode;
use crate::math::amm::{
    calculate_market_open_bids_asks, max_open_asks, max_open_bids, open_bids_asks_fit,
};
use crate::math::casting::{cast_to_u128, cast_to_u64, unsigned_abs};
use crate::math::constants::AMM_RESERVE_PRECISION;
use crate::math::orders::{
    lemma_standardized_is_monotone, lemma_standardized_is_multiple, standardize_base_asset_amount,
    standardized,
};
use crate::state::market::{PerpMarket, AMM};

verus! {

/// Whether a fill looks like a wash trade: the taker buys below the oracle
/// price, so that the maker would sell cheap, or sells above it, so that the
/// maker would buy dear.
pub open spec fn is_wash_trade(
    taker_direction: PositionDirection,
    auction_price: u128,
    oracle_price: i128,
) -> bool {
    match taker_direction {
        PositionDirection::Long => auction_price < oracle_price,
        PositionDirection::Short => auction_price > oracle_price,
    }
}

/// The cap on what the maker takes of an order: nothing without an oracle
/// price, half of the order with one, and a quarter of that half when the fill
/// looks like a wash trade.
pub open spec fn max_jit_amount(
    maker_base_asset_amount: u64,
    auction_price: u128,
    valid_oracle_price: Option<i128>,
    taker_direction: PositionDirection,
) -> int {
    match valid_oracle_price {
        None => 0,
        Some(oracle_price) => if is_wash_trade(taker_direction, auction_price, oracle_price) {
            maker_base_asset_amount as int / 2 / 4
        } else {
            maker_base_asset_amount as int / 2
        },
    }
}

/// The larger of the two capacities of the maker, as a magnitude.
pub open spec fn larger_capacity(amm: AMM) -> int {
    max(abs(max_open_bids(amm)) as int, abs(max_open_asks(amm)) as int)
}

/// The smaller of the two capacities of the maker, as a magnitude.
pub open spec fn smaller_capacity(amm: AMM) -> int {
    min(abs(max_open_bids(amm)) as int, abs(max_open_asks(amm)) as int)
}

/// How lopsided the maker stands on its curve: the larger capacity over the
/// smaller, at the scale of the reserves. One unit of the scale means that the
/// reserve is in the middle.
pub open spec fn imbalance_ratio(amm: AMM) -> int {
    larger_capacity(amm) * AMM_RESERVE_PRECISION / smaller_capacity(amm)
}

/// The maker is imbalanced when one capacity is at least three times the
/// other.
pub open spec fn amm_is_imbalanced(amm: AMM) -> bool {
    imbalance_ratio(amm) >= 3 * AMM_RESERVE_PRECISION
}

/// Why the imbalance cannot be measured, if it cannot: a capacity does not
/// fit signed 128 bits, the scaled larger capacity does not fit unsigned 128
/// bits, or the smaller capacity is zero.
pub open spec fn imbalance_error(amm: AMM) -> Option<ErrorCode> {
    if !open_bids_asks_fit(amm) {
        Some(ErrorCode::CastingFailure)
    } else if larger_capacity(amm) * AMM_RESERVE_PRECISION > u128::MAX || smaller_capacity(amm)
        == 0 {
        Some(ErrorCode::MathError)
    } else {
        None
    }
}

/// What the maker would take before any clamp: the whole order when it is
/// imbalanced, a quarter of it otherwise.
pub open spec fn intensity_amount(amm: AMM, maker_base_asset_amount: u64) -> int {
    if amm_is_imbalanced(amm) {
        maker_base_asset_amount as int
    } else {
        maker_base_asset_amount as int / 4
    }
}

/// An amount scaled by the intensity of the maker, a percentage, and capped
/// at the magnitude of the maker's inventory.
pub open spec fn clamped_jit_amount(amm: AMM, jit_base_asset_amount: int) -> int {
    min(
        jit_base_asset_amount * amm.amm_jit_intensity / 100,
        abs(amm.net_base_asset_amount as int) as int,
    )
}

/// The error that the sizing ends in, if it ends in one. The checks stand in
/// the order in which they are made; a sizing that is already known to be zero
/// makes no further check.
pub open spec fn jit_sizing_error(
    market: PerpMarket,
    maker_base_asset_amount: u64,
    auction_price: u128,
    valid_oracle_price: Option<i128>,
    taker_direction: PositionDirection,
) -> Option<ErrorCode> {
    let amount = intensity_amount(market.amm, maker_base_asset_amount);
    if valid_oracle_price matches Some(oracle_price) && oracle_price < 0 {
        Some(ErrorCode::CastingFailure)
    } else if max_jit_amount(
        maker_base_asset_amount,
        auction_price,
        valid_oracle_price,
        taker_direction,
    ) == 0 {
        None
    } else if imbalance_error(market.amm) is Some {
        imbalance_error(market.amm)
    } else if amount == 0 {
        None
    } else if clamped_jit_amount(market.amm, amount) > u64::MAX {
        Some(ErrorCode::CastingFailure)
    } else if market.amm.order_step_size == 0 {
        Some(ErrorCode::MathError)
    } else {
        None
    }
}

/// What the maker takes of an order, where the sizing ends in no error.
pub open spec fn jit_base_asset_amount(
    market: PerpMarket,
    maker_base_asset_amount: u64,
    auction_price: u128,
    valid_oracle_price: Option<i128>,
    taker_direction: PositionDirection,
) -> int {
    let cap = max_jit_amount(
        maker_base_asset_amount,
        auction_price,
        valid_oracle_price,
        taker_direction,
    );
    let amount = intensity_amount(market.amm, maker_base_asset_amount);
    if cap == 0 || amount == 0 {
        0
    } else {
        standardized(
            min(clamped_jit_amount(market.amm, amount), cap),
            market.amm.order_step_size as int,
        )
    }
}

/// Sizes the just-in-time fill of the maker against a resting order.
///
/// The caller has made sure that the maker is willing to make markets and that
/// the fill moves its inventory toward balance. The oracle price, when there
/// is one, has been validated; without one nothing is taken. What is taken is
/// never more than half of the order nor more than the inventory of the maker,
/// and it is a multiple of the step size.
pub fn calculate_jit_base_asset_amount(
    market: &PerpMarket,
    maker_base_asset_amount: u64,
    auction_price: u128,
    valid_oracle_price: Option<i128>,
    taker_direction: PositionDirection,
) -> (r: Result<u64, ErrorCode>)
    ensures
        r == (match jit_sizing_error(
            *market,
            maker_base_asset_amount,
            auction_price,
            valid_oracle_price,
            taker_direction,
        ) {
            Some(error) => Err::<u64, ErrorCode>(error),
            None => Ok::<u64, ErrorCode>(
                jit_base_asset_amount(
                    *market,
                    maker_base_asset_amount,
                    auction_price,
                    valid_oracle_price,
                    taker_direction,
                ) as u64,
            ),
        }),
        valid_oracle_price is None ==> r == Ok::<u64, ErrorCode>(0),
        r matches Err(error) ==> error.is_arithmetic(),
        r matches Ok(amount) ==> {
            &&& amount <= maker_base_asset_amount / 2
            &&& amount <= abs(market.amm.net_base_asset_amount as int)
            &&& market.amm.order_step_size > 0 ==> amount % market.amm.order_step_size == 0
        },
{
    proof {
        if market.amm.order_step_size > 0 {
            vstd::arithmetic::div_mod::lemma_small_mod(0, market.amm.order_step_size as nat);
        }
    }
    // never more than half of what the maker offers
    let mut max_jit_amount: u64 = maker_base_asset_amount / 2;

    match valid_oracle_price {
        Some(oracle_price) => {
            let oracle_price: u128 = cast_to_u128(oracle_price)?;
            let wash_trade: bool = match taker_direction {
                PositionDirection::Long => auction_price < oracle_price,
                PositionDirection::Short => auction_price > oracle_price,
            };
            if wash_trade {
                max_jit_amount = max_jit_amount / 4;
            }
        },
        None => {
            max_jit_amount = 0;
        },
    }

    if max_jit_amount == 0 {
        return Ok(0);
    }

    let (max_bids, max_asks) = calculate_market_open_bids_asks(&market.amm)?;
    let max_bids: u128 = unsigned_abs(max_bids);
    let max_asks: u128 = unsigned_abs(max_asks);

    let numerator: u128 = if max_bids >= max_asks {
        max_bids
    } else {
        max_asks
    };
    let denominator: u128 = if max_bids >= max_asks {
        max_asks
    } else {
        max_bids
    };
    let ratio: u128 = numerator.checked_mul(AMM_RESERVE_PRECISION).ok_or(
        ErrorCode::MathError,
    )?.checked_div(denominator).ok_or(ErrorCode::MathError)?;

    let imbalanced_bound: u128 = 3 * AMM_RESERVE_PRECISION;
    let amm_is_imbalanced: bool = ratio >= imbalanced_bound;

    // take more when the maker is imbalanced
    let jit_base_asset_amount: u64 = if amm_is_imbalanced {
        maker_base_asset_amount
    } else {
        maker_base_asset_amount / 4
    };

    if jit_base_asset_amount == 0 {
        return Ok(0);
    }

    let clamped: u64 = calculate_clampped_jit_base_asset_amount(market, jit_base_asset_amount)?;
    let capped: u64 = if clamped <= max_jit_amount {
        clamped
    } else {
        max_jit_amount
    };

    // the last step is always to round down to the step size
    standardize_base_asset_amount(capped, market.amm.order_step_size)
}

/// Scales an amount by the intensity of the maker and caps it at the
/// magnitude of the maker's inventory.
///
/// The two are compared at 128 bits, so an inventory beyond 64 bits is no
/// error: the call fails, with `CastingFailure`, only when the smaller of the
/// two does not fit 64 bits, which an intensity of at most a hundred percent
/// rules out.
pub fn calculate_clampped_jit_base_asset_amount(
    market: &PerpMarket,
    jit_base_asset_amount: u64,
) -> (r: Result<u64, ErrorCode>)
    ensures
        clamped_jit_amount(market.amm, jit_base_asset_amount as int) <= u64::MAX ==> r == Ok::<
            u64,
            ErrorCode,
        >(clamped_jit_amount(market.amm, jit_base_asset_amount as int) as u64),
        clamped_jit_amount(market.amm, jit_base_asset_amount as int) > u64::MAX ==> r == Err::<
            u64,
            ErrorCode,
        >(ErrorCode::CastingFailure),
        market.amm.amm_jit_intensity <= 100 ==> r is Ok,
        market.amm.amm_jit_intensity == 0 ==> r == Ok::<u64, ErrorCode>(0),
        market.amm.amm_jit_intensity == 100 && jit_base_asset_amount <= abs(
            market.amm.net_base_asset_amount as int,
        ) ==> r == Ok::<u64, ErrorCode>(jit_base_asset_amount),
        r matches Ok(amount) ==> amount <= abs(market.amm.net_base_asset_amount as int),
{
    let amount: u128 = jit_base_asset_amount as u128;
    let intensity: u128 = market.amm.amm_jit_intensity as u128;
    proof {
        lemma_intensity_scaling(amount as int, intensity as int);
    }
    let scaled: u128 = amount * intensity / 100;

    // do not turn the maker's own position around
    let inventory: u128 = unsigned_abs(market.amm.net_base_asset_amount);
    let clamped: u128 = if scaled <= inventory {
        scaled
    } else {
        inventory
    };
    cast_to_u64(clamped)
}

/// Scaling by a percentage: the product fits 128 bits, an intensity of zero
/// gives zero, one of a hundred gives the amount back, and none up to a
/// hundred gives more than the amount.
pub proof fn lemma_intensity_scaling(amount: int, intensity: int)
    requires
        0 <= amount <= u64::MAX,
        0 <= intensity <= u8::MAX,
    ensures
        0 <= amount * intensity <= u64::MAX * u8::MAX,
        0 <= amount * intensity / 100,
        intensity == 0 ==> amount * intensity / 100 == 0,
        intensity == 100 ==> amount * intensity / 100 == amount,
        intensity <= 100 ==> amount * intensity / 100 <= amount,
{
    assert(0 <= amount * intensity <= u64::MAX * u8::MAX) by (nonlinear_arith)
        requires
            0 <= amount <= u64::MAX,
            0 <= intensity <= u8::MAX,
    ;
    assert(intensity == 0 ==> amount * intensity == 0) by (nonlinear_arith);
    assert(intensity <= 100 ==> amount * intensity <= amount * 100) by (nonlinear_arith)
        requires
            0 <= amount,
    ;
}

/// The clamp keeps the order of two amounts, and never gives a negative
/// amount.
pub proof fn lemma_clamp_is_monotone(amm: AMM, smaller: int, larger: int)
    requires
        0 <= smaller <= larger,
    ensures
        0 <= clamped_jit_amount(amm, smaller) <= clamped_jit_amount(amm, larger),
{
    let intensity = amm.amm_jit_intensity as int;
    vstd::arithmetic::mul::lemma_mul_inequality(smaller, larger, intensity);
    vstd::arithmetic::mul::lemma_mul_nonnegative(smaller, intensity);
}

/// The sizing is monotone in the imbalance: of two makers that differ only in
/// where they stand on their curves, the more imbalanced one never takes less
/// of the same order at the same prices.
pub proof fn lemma_jit_amount_monotone_in_imbalance(
    less: PerpMarket,
    more: PerpMarket,
    maker_base_asset_amount: u64,
    auction_price: u128,
    valid_oracle_price: Option<i128>,
    taker_direction: PositionDirection,
)
    requires
        less.amm.net_base_asset_amount == more.amm.net_base_asset_amount,
        less.amm.amm_jit_intensity == more.amm.amm_jit_intensity,
        less.amm.order_step_size == more.amm.order_step_size,
        imbalance_ratio(less.amm) <= imbalance_ratio(more.amm),
        jit_sizing_error(
            less,
            maker_base_asset_amount,
            auction_price,
            valid_oracle_price,
            taker_direction,
        ) is None,
        jit_sizing_error(
            more,
            maker_base_asset_amount,
            auction_price,
            valid_oracle_price,
            taker_direction,
        ) is None,
    ensures
        jit_base_asset_amount(
            less,
            maker_base_asset_amount,
            auction_price,
            valid_oracle_price,
            taker_direction,
        ) <= jit_base_asset_amount(
            more,
            maker_base_asset_amount,
            auction_price,
            valid_oracle_price,
            taker_direction,
        ),
{
    let cap = max_jit_amount(
        maker_base_asset_amount,
        auction_price,
        valid_oracle_price,
        taker_direction,
    );
    let amount_less = intensity_amount(less.amm, maker_base_asset_amount);
    let amount_more = intensity_amount(more.amm, maker_base_asset_amount);
    let step = more.amm.order_step_size as int;
    if cap != 0 && amount_more != 0 {
        lemma_clamp_is_monotone(less.amm, amount_less, amount_more);
        assert(clamped_jit_amount(less.amm, amount_less) == clamped_jit_amount(
            more.amm,
            amount_less,
        ));
        let taken_more = min(clamped_jit_amount(more.amm, amount_more), cap);
        lemma_standardized_is_multiple(taken_more, step);
        if amount_less != 0 {
            let taken_less = min(clamped_jit_amount(less.amm, amount_less), cap);
            lemma_standardized_is_monotone(taken_less, taken_more, step);
        }
    }
}

/// A fill that looks like a wash trade is never sized above one that does not,
/// all else equal, and it is sized strictly below exactly when the other
/// sizing exceeds the quartered cap; otherwise the two are equal.
pub proof fn lemma_wash_trade_never_takes_more(
    market: PerpMarket,
    maker_base_asset_amount: u64,
    taker_direction: PositionDirection,
    wash_auction_price: u128,
    wash_oracle_price: i128,
    neutral_auction_price: u128,
    neutral_oracle_price: i128,
)
    requires
        is_wash_trade(taker_direction, wash_auction_price, wash_oracle_price),
        !is_wash_trade(taker_direction, neutral_auction_price, neutral_oracle_price),
        jit_sizing_error(
            market,
            maker_base_asset_amount,
            wash_auction_price,
            Some(wash_oracle_price),
            taker_direction,
        ) is None,
        jit_sizing_error(
            market,
            maker_base_asset_amount,
            neutral_auction_price,
            Some(neutral_oracle_price),
            taker_direction,
        ) is None,
    ensures
        jit_base_asset_amount(
            market,
            maker_base_asset_amount,
            wash_auction_price,
            Some(wash_oracle_price),
            taker_direction,
        ) <= jit_base_asset_amount(
            market,
            maker_base_asset_amount,
            neutral_auction_price,
            Some(neutral_oracle_price),
            taker_direction,
        ),
        jit_base_asset_amount(
            market,
            maker_base_asset_amount,
            wash_auction_price,
            Some(wash_oracle_price),
            taker_direction,
        ) < jit_base_asset_amount(
            market,
            maker_base_asset_amount,
            neutral_auction_price,
            Some(neutral_oracle_price),
            taker_direction,
        ) <==> jit_base_asset_amount(
            market,
            maker_base_asset_amount,
            neutral_auction_price,
            Some(neutral_oracle_price),
            taker_direction,
        ) > maker_base_asset_amount / 2 / 4,
{
    let half = maker_base_asset_amount as int / 2;
    let eighth = half / 4;
    let amount = intensity_amount(market.amm, maker_base_asset_amount);
    let step = market.amm.order_step_size as int;
    if half != 0 && amount != 0 {
        lemma_clamp_is_monotone(market.amm, amount, amount);
        let clamped = clamped_jit_amount(market.amm, amount);
        let taken_neutral = min(clamped, half);
        let taken_wash = min(clamped, eighth);
        let neutral = standardized(taken_neutral, step);
        lemma_standardized_is_multiple(taken_neutral, step);
        if eighth != 0 {
            lemma_standardized_is_multiple(taken_wash, step);
            lemma_standardized_is_monotone(taken_wash, taken_neutral, step);
            if neutral <= eighth {
                // a multiple of the step below the quartered cap survives the
                // rounding of the wash sizing
                lemma_standardized_is_monotone(neutral, taken_wash, step);
            }
        }
    }
}

/// A fill that looks like a wash trade is sized strictly below one that does
/// not, all else equal, wherever the other sizing exceeds the quartered cap.
pub proof fn lemma_wash_trade_takes_less(
    market: PerpMarket,
    maker_base_asset_amount: u64,
    taker_direction: PositionDirection,
    wash_auction_price: u128,
    wash_oracle_price: i128,
    neutral_auction_price: u128,
    neutral_oracle_price: i128,
)
    requires
        is_wash_trade(taker_direction, wash_auction_price, wash_oracle_price),
        !is_wash_trade(taker_direction, neutral_auction_price, neutral_oracle_price),
        jit_sizing_error(
            market,
            maker_base_asset_amount,
            wash_auction_price,
            Some(wash_oracle_price),
            taker_direction,
        ) is None,
        jit_sizing_error(
            market,
            maker_base_asset_amount,
            neutral_auction_price,
            Some(neutral_oracle_price),
            taker_direction,
        ) is None,
        jit_base_asset_amount(
            market,
            maker_base_asset_amount,
            neutral_auction_price,
            Some(neutral_oracle_price),
            taker_direction,
        ) > maker_base_asset_amount / 2 / 4,
    ensures
        jit_base_asset_amount(
            market,
            maker_base_asset_amount,
            wash_auction_price,
            Some(wash_oracle_price),
            taker_direction,
        ) < jit_base_asset_amount(
            market,
            maker_base_asset_amount,
            neutral_auction_price,
            Some(neutral_oracle_price),
            taker_direction,
        ),
{
    lemma_wash_trade_never_takes_more(
        market,
        maker_base_asset_amount,
        taker_direction,
        wash_auction_price,
        wash_oracle_price,
        neutral_auction_price,
        neutral_oracle_price,
    );
}

} // verus!
