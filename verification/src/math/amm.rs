//! How far an automated market maker can still move along its curve.
use vstd::prelude::*;
use crate::error::ErrorCode;
use crate::math::casting::cast_to_i128;
use crate::state::market::AMM;

verus! {

/// The most base asset that the maker can still buy: the distance of its
/// reserve from the lower end of the curve, and nothing once it is there.
pub open spec fn max_open_bids(amm: AMM) -> int {
    if amm.base_asset_reserve > amm.min_base_asset_reserve {
        amm.base_asset_reserve - amm.min_base_asset_reserve
    } else {
        0
    }
}

/// The most base asset that the maker can still sell, as a number that is
/// never positive: the distance of its reserve from the upper end of the curve.
pub open spec fn max_open_asks(amm: AMM) -> int {
    if amm.base_asset_reserve < amm.max_base_asset_reserve {
        -(amm.max_base_asset_reserve - amm.base_asset_reserve)
    } else {
        0
    }
}

/// Whether both capacities can be held in signed 128 bits.
pub open spec fn open_bids_asks_fit(amm: AMM) -> bool {
    max_open_bids(amm) <= i128::MAX && -max_open_asks(amm) <= i128::MAX
}

/// The capacities of the maker on both sides, bids first; asks are negative.
/// Fails with `CastingFailure` when one of them does not fit.
pub fn calculate_market_open_bids_asks(amm: &AMM) -> (r: Result<(i128, i128), ErrorCode>)
    ensures
        open_bids_asks_fit(*amm) ==> r == Ok::<(i128, i128), ErrorCode>(
            (max_open_bids(*amm) as i128, max_open_asks(*amm) as i128),
        ),
        !open_bids_asks_fit(*amm) ==> r == Err::<(i128, i128), ErrorCode>(
            ErrorCode::CastingFailure,
        ),
{
    let max_asks: i128 = if amm.base_asset_reserve < amm.max_base_asset_reserve {
        -cast_to_i128(amm.max_base_asset_reserve - amm.base_asset_reserve)?
    } else {
        0
    };
    let max_bids: i128 = if amm.base_asset_reserve > amm.min_base_asset_reserve {
        cast_to_i128(amm.base_asset_reserve - amm.min_base_asset_reserve)?
    } else {
        0
    };
    Ok((max_bids, max_asks))
}

} // verus!
