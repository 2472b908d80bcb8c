//! Precision scales and global bounds.
use vstd::prelude::*;

verus! {

/// Scale of the reserves of an automated market maker (nine decimals).
pub const AMM_RESERVE_PRECISION: u128 = 1_000_000_000;

/// Scale of the balances of a spot market and of its positions: the balance
/// that stands for one whole token before any interest has accrued.
pub const SPOT_BALANCE_PRECISION: u128 = 1_000_000_000;

/// Scale of the cumulative interest of a spot market.
pub const SPOT_CUMULATIVE_INTEREST_PRECISION: u128 = 10_000_000_000;

/// The full weight of an asset or a liability of a spot market.
pub const SPOT_WEIGHT_PRECISION: u128 = 10_000;

/// Scale of the factor of the size-dependent margin of a spot market.
pub const SPOT_IMF_PRECISION: u128 = 1_000_000;

/// Scale of margin ratios.
pub const MARGIN_PRECISION: u128 = 10_000;

/// Scale of liquidation fees.
pub const LIQUIDATION_FEE_PRECISION: u128 = 1_000_000;

/// Factor that brings a margin ratio to the scale of a liquidation fee: the
/// scale of the fees over the scale of the ratios.
pub const LIQUIDATION_FEE_TO_MARGIN_PRECISION_RATIO: u128 = 100;

/// The largest margin ratio: no leverage at all.
pub const MAXIMUM_MARGIN_RATIO: u32 = 10_000;

/// The smallest margin ratio: fifty times leverage.
pub const MINIMUM_MARGIN_RATIO: u32 = 200;

/// The index of the quote market among the spot markets.
pub const QUOTE_SPOT_MARKET_INDEX: u16 = 0;

/// The decimals of a balance and of the cumulative interest together: nine
/// and ten. A token cannot have more.
pub const SPOT_BALANCE_DECIMALS: u8 = 19;

} // verus!
