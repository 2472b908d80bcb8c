//! A derivative market and its automated market maker.
use vstd::prelude::*;
use crate::math::constants::AMM_RESERVE_PRECISION;

verus! {

/// The automated market maker of a derivative market, as far as the sizing of
/// just-in-time liquidity reads it.
#[derive(Clone, Copy, Debug, PartialEq, Eq, Structural)]
pub struct AMM {
    /// Where the maker stands on its virtual curve.
    pub base_asset_reserve: u128,
    /// Lower end of the curve.
    pub min_base_asset_reserve: u128,
    /// Upper end of the curve.
    pub max_base_asset_reserve: u128,
    /// The maker's own inventory: positive when it is long.
    pub net_base_asset_amount: i128,
    /// The smallest increment that can be traded.
    pub order_step_size: u64,
    /// Share of a maker order, in percent, that the maker is willing to take.
    pub amm_jit_intensity: u8,
}

impl AMM {
    /// The reserve lies between the ends of the curve, and the intensity is a
    /// percentage.
    pub open spec fn well_formed(self) -> bool {
        &&& self.min_base_asset_reserve <= self.base_asset_reserve
        &&& self.base_asset_reserve <= self.max_base_asset_reserve
        &&& self.amm_jit_intensity <= 100
    }

    /// A maker with a hundred units of reserve on a curve that is as wide as
    /// 64 bits allow, trading in steps of one.
    pub fn default_test() -> (r: Self)
        ensures
            r == (AMM {
                base_asset_reserve: (100 * AMM_RESERVE_PRECISION) as u128,
                min_base_asset_reserve: 0,
                max_base_asset_reserve: u64::MAX as u128,
                net_base_asset_amount: 0,
                order_step_size: 1,
                amm_jit_intensity: 0,
            }),
            r.well_formed(),
    {
        AMM {
            base_asset_reserve: 100 * AMM_RESERVE_PRECISION,
            min_base_asset_reserve: 0,
            max_base_asset_reserve: u64::MAX as u128,
            net_base_asset_amount: 0,
            order_step_size: 1,
            amm_jit_intensity: 0,
        }
    }
}

impl Default for AMM {
    /// The zeroed maker.
    fn default() -> (r: Self)
        ensures
            r == (AMM {
                base_asset_reserve: 0,
                min_base_asset_reserve: 0,
                max_base_asset_reserve: 0,
                net_base_asset_amount: 0,
                order_step_size: 0,
                amm_jit_intensity: 0,
            }),
            r.well_formed(),
    {
        AMM {
            base_asset_reserve: 0,
            min_base_asset_reserve: 0,
            max_base_asset_reserve: 0,
            net_base_asset_amount: 0,
            order_step_size: 0,
            amm_jit_intensity: 0,
        }
    }
}

/// A derivative market.
#[derive(Clone, Copy, Debug, PartialEq, Eq, Structural)]
pub struct PerpMarket {
    /// The index of the market among the derivative markets.
    pub market_index: u16,
    /// The market's automated market maker.
    pub amm: AMM,
}

impl Default for PerpMarket {
    /// The market with index zero and the zeroed maker.
    fn default() -> (r: Self)
        ensures
            r.market_index == 0,
            r.amm == (AMM {
                base_asset_reserve: 0,
                min_base_asset_reserve: 0,
                max_base_asset_reserve: 0,
                net_base_asset_amount: 0,
                order_step_size: 0,
                amm_jit_intensity: 0,
            }),
    {
        PerpMarket { market_index: 0, amm: AMM::default() }
    }
}

} // verus!
