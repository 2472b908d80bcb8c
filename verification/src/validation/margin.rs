//! The bounds on the margin parameters of a market.
//!
//! Both validators try their rules in a fixed order and stop at the first
//! that is broken; they never correct a parameter.
use vstd::prelude::*;
use crate::error::{ErrorCode, MarginRule, WeightRule};
use crate::math::constants::{
    LIQUIDATION_FEE_TO_MARGIN_PRECISION_RATIO, MAXIMUM_MARGIN_RATIO, MINIMUM_MARGIN_RATIO,
    QUOTE_SPOT_MARKET_INDEX, SPOT_IMF_PRECISION, SPOT_WEIGHT_PRECISION,
};

verus! {

/// Whether a margin ratio lies within the global bounds, ends included.
pub open spec fn margin_ratio_within_bounds(margin_ratio: u32) -> bool {
    MINIMUM_MARGIN_RATIO <= margin_ratio <= MAXIMUM_MARGIN_RATIO
}

/// Whether the margin parameters keep the given rule.
pub open spec fn margin_rule_holds(
    rule: MarginRule,
    margin_ratio_initial: u32,
    margin_ratio_maintenance: u32,
    liquidation_fee: u128,
    max_spread: u32,
) -> bool {
    match rule {
        MarginRule::InitialRatioWithinBounds => margin_ratio_within_bounds(margin_ratio_initial),
        MarginRule::InitialCoversMaintenance => margin_ratio_initial >= margin_ratio_maintenance,
        MarginRule::MaintenanceRatioWithinBounds => margin_ratio_within_bounds(
            margin_ratio_maintenance,
        ),
        MarginRule::MaintenanceExceedsLiquidationFee => margin_ratio_maintenance
            * LIQUIDATION_FEE_TO_MARGIN_PRECISION_RATIO > liquidation_fee,
        MarginRule::InitialExceedsMaxSpread => margin_ratio_initial * 100 > max_spread,
    }
}

/// The margin parameters that may take effect: both ratios within the global
/// bounds, the initial one at least the maintenance one, the maintenance buffer
/// above the liquidation fee, and the initial margin above the largest spread.
pub open spec fn margin_is_valid(
    margin_ratio_initial: u32,
    margin_ratio_maintenance: u32,
    liquidation_fee: u128,
    max_spread: u32,
) -> bool {
    &&& margin_ratio_within_bounds(margin_ratio_initial)
    &&& margin_ratio_within_bounds(margin_ratio_maintenance)
    &&& margin_ratio_initial >= margin_ratio_maintenance
    &&& margin_ratio_maintenance * LIQUIDATION_FEE_TO_MARGIN_PRECISION_RATIO > liquidation_fee
    &&& margin_ratio_initial * 100 > max_spread
}

/// The first rule, in the order of `MarginRule`, that the parameters break.
pub open spec fn first_broken_margin_rule(
    margin_ratio_initial: u32,
    margin_ratio_maintenance: u32,
    liquidation_fee: u128,
    max_spread: u32,
) -> Option<MarginRule> {
    let holds = |rule: MarginRule|
        margin_rule_holds(
            rule,
            margin_ratio_initial,
            margin_ratio_maintenance,
            liquidation_fee,
            max_spread,
        );
    if !holds(MarginRule::InitialRatioWithinBounds) {
        Some(MarginRule::InitialRatioWithinBounds)
    } else if !holds(MarginRule::InitialCoversMaintenance) {
        Some(MarginRule::InitialCoversMaintenance)
    } else if !holds(MarginRule::MaintenanceRatioWithinBounds) {
        Some(MarginRule::MaintenanceRatioWithinBounds)
    } else if !holds(MarginRule::MaintenanceExceedsLiquidationFee) {
        Some(MarginRule::MaintenanceExceedsLiquidationFee)
    } else if !holds(MarginRule::InitialExceedsMaxSpread) {
        Some(MarginRule::InitialExceedsMaxSpread)
    } else {
        None
    }
}

/// Accepts the margin parameters of a derivative market, or names the first
/// rule that they break.
pub fn validate_margin(
    margin_ratio_initial: u32,
    margin_ratio_maintenance: u32,
    liquidation_fee: u128,
    max_spread: u32,
) -> (r: Result<(), ErrorCode>)
    ensures
        r is Ok <==> margin_is_valid(
            margin_ratio_initial,
            margin_ratio_maintenance,
            liquidation_fee,
            max_spread,
        ),
        r == (match first_broken_margin_rule(
            margin_ratio_initial,
            margin_ratio_maintenance,
            liquidation_fee,
            max_spread,
        ) {
            Some(rule) => Err::<(), ErrorCode>(ErrorCode::InvalidMarginRatio(rule)),
            None => Ok::<(), ErrorCode>(()),
        }),
        r matches Err(error) ==> !error.is_arithmetic(),
{
    if margin_ratio_initial < MINIMUM_MARGIN_RATIO || margin_ratio_initial > MAXIMUM_MARGIN_RATIO {
        return Err(ErrorCode::InvalidMarginRatio(MarginRule::InitialRatioWithinBounds));
    }
    if margin_ratio_initial < margin_ratio_maintenance {
        return Err(ErrorCode::InvalidMarginRatio(MarginRule::InitialCoversMaintenance));
    }
    if margin_ratio_maintenance < MINIMUM_MARGIN_RATIO || margin_ratio_maintenance
        > MAXIMUM_MARGIN_RATIO {
        return Err(ErrorCode::InvalidMarginRatio(MarginRule::MaintenanceRatioWithinBounds));
    }
    let maintenance: u128 = margin_ratio_maintenance as u128;
    if maintenance * LIQUIDATION_FEE_TO_MARGIN_PRECISION_RATIO <= liquidation_fee {
        return Err(ErrorCode::InvalidMarginRatio(MarginRule::MaintenanceExceedsLiquidationFee));
    }
    let initial: u128 = margin_ratio_initial as u128;
    if initial * 100 <= max_spread as u128 {
        return Err(ErrorCode::InvalidMarginRatio(MarginRule::InitialExceedsMaxSpread));
    }
    Ok(())
}

/// Whether the weights of the spot market with the given index keep the given
/// rule. A rule for the quote market holds of every other market, and the
/// other way round.
pub open spec fn weight_rule_holds(
    rule: WeightRule,
    spot_market_index: u16,
    initial_asset_weight: u128,
    maintenance_asset_weight: u128,
    initial_liability_weight: u128,
    maintenance_liability_weight: u128,
    imf_factor: u128,
) -> bool {
    let quote = spot_market_index == QUOTE_SPOT_MARKET_INDEX;
    match rule {
        WeightRule::QuoteInitialAssetWeight => quote ==> initial_asset_weight
            == SPOT_WEIGHT_PRECISION,
        WeightRule::QuoteMaintenanceAssetWeight => quote ==> maintenance_asset_weight
            == SPOT_WEIGHT_PRECISION,
        WeightRule::QuoteInitialLiabilityWeight => quote ==> initial_liability_weight
            == SPOT_WEIGHT_PRECISION,
        WeightRule::QuoteMaintenanceLiabilityWeight => quote ==> maintenance_liability_weight
            == SPOT_WEIGHT_PRECISION,
        WeightRule::InitialAssetWeight => !quote ==> initial_asset_weight < SPOT_WEIGHT_PRECISION,
        WeightRule::MaintenanceAssetWeight => !quote ==> {
            &&& initial_asset_weight <= maintenance_asset_weight
            &&& maintenance_asset_weight > 0
            &&& maintenance_asset_weight < SPOT_WEIGHT_PRECISION
        },
        WeightRule::InitialLiabilityWeight => !quote ==> initial_liability_weight
            > SPOT_WEIGHT_PRECISION,
        WeightRule::MaintenanceLiabilityWeight => !quote ==> {
            &&& initial_liability_weight >= maintenance_liability_weight
            &&& maintenance_liability_weight > SPOT_WEIGHT_PRECISION
        },
        WeightRule::ImfFactor => imf_factor < SPOT_IMF_PRECISION,
    }
}

/// The weights that may take effect. On the quote market all four are the
/// full weight. On every other market an asset counts for less than the full
/// weight and a liability for more, and the requirement for a new position is
/// at least as strict as the one for an existing position. Everywhere the
/// factor of the size-dependent margin is below its precision.
pub open spec fn margin_weights_are_valid(
    spot_market_index: u16,
    initial_asset_weight: u128,
    maintenance_asset_weight: u128,
    initial_liability_weight: u128,
    maintenance_liability_weight: u128,
    imf_factor: u128,
) -> bool {
    &&& if spot_market_index == QUOTE_SPOT_MARKET_INDEX {
        &&& initial_asset_weight == SPOT_WEIGHT_PRECISION
        &&& maintenance_asset_weight == SPOT_WEIGHT_PRECISION
        &&& initial_liability_weight == SPOT_WEIGHT_PRECISION
        &&& maintenance_liability_weight == SPOT_WEIGHT_PRECISION
    } else {
        &&& initial_asset_weight < SPOT_WEIGHT_PRECISION
        &&& 0 < maintenance_asset_weight
        &&& initial_asset_weight <= maintenance_asset_weight < SPOT_WEIGHT_PRECISION
        &&& initial_liability_weight > SPOT_WEIGHT_PRECISION
        &&& SPOT_WEIGHT_PRECISION < maintenance_liability_weight <= initial_liability_weight
    }
    &&& imf_factor < SPOT_IMF_PRECISION
}

/// The first rule, in the order of `WeightRule`, that the weights break.
pub open spec fn first_broken_weight_rule(
    spot_market_index: u16,
    initial_asset_weight: u128,
    maintenance_asset_weight: u128,
    initial_liability_weight: u128,
    maintenance_liability_weight: u128,
    imf_factor: u128,
) -> Option<WeightRule> {
    let holds = |rule: WeightRule|
        weight_rule_holds(
            rule,
            spot_market_index,
            initial_asset_weight,
            maintenance_asset_weight,
            initial_liability_weight,
            maintenance_liability_weight,
            imf_factor,
        );
    if !holds(WeightRule::QuoteInitialAssetWeight) {
        Some(WeightRule::QuoteInitialAssetWeight)
    } else if !holds(WeightRule::QuoteMaintenanceAssetWeight) {
        Some(WeightRule::QuoteMaintenanceAssetWeight)
    } else if !holds(WeightRule::QuoteInitialLiabilityWeight) {
        Some(WeightRule::QuoteInitialLiabilityWeight)
    } else if !holds(WeightRule::QuoteMaintenanceLiabilityWeight) {
        Some(WeightRule::QuoteMaintenanceLiabilityWeight)
    } else if !holds(WeightRule::InitialAssetWeight) {
        Some(WeightRule::InitialAssetWeight)
    } else if !holds(WeightRule::MaintenanceAssetWeight) {
        Some(WeightRule::MaintenanceAssetWeight)
    } else if !holds(WeightRule::InitialLiabilityWeight) {
        Some(WeightRule::InitialLiabilityWeight)
    } else if !holds(WeightRule::MaintenanceLiabilityWeight) {
        Some(WeightRule::MaintenanceLiabilityWeight)
    } else if !holds(WeightRule::ImfFactor) {
        Some(WeightRule::ImfFactor)
    } else {
        None
    }
}

/// Accepts the weights of a spot market, or names the first rule that they
/// break.
///
/// In particular the quote market is refused as soon as one of its weights
/// differs from the full weight, and any other market is refused when its
/// initial liability weight does not exceed the full weight.
pub fn validate_margin_weights(
    spot_market_index: u16,
    initial_asset_weight: u128,
    maintenance_asset_weight: u128,
    initial_liability_weight: u128,
    maintenance_liability_weight: u128,
    imf_factor: u128,
) -> (r: Result<(), ErrorCode>)
    ensures
        r is Ok <==> margin_weights_are_valid(
            spot_market_index,
            initial_asset_weight,
            maintenance_asset_weight,
            initial_liability_weight,
            maintenance_liability_weight,
            imf_factor,
        ),
        r == (match first_broken_weight_rule(
            spot_market_index,
            initial_asset_weight,
            maintenance_asset_weight,
            initial_liability_weight,
            maintenance_liability_weight,
            imf_factor,
        ) {
            Some(rule) => Err::<(), ErrorCode>(ErrorCode::InvalidSpotMarketInitialization(rule)),
            None => Ok::<(), ErrorCode>(()),
        }),
        spot_market_index == 0 && !(initial_asset_weight == SPOT_WEIGHT_PRECISION
            && maintenance_asset_weight == SPOT_WEIGHT_PRECISION && initial_liability_weight
            == SPOT_WEIGHT_PRECISION && maintenance_liability_weight == SPOT_WEIGHT_PRECISION)
            ==> r is Err,
        spot_market_index != 0 && initial_liability_weight <= SPOT_WEIGHT_PRECISION ==> r is Err,
        r matches Err(error) ==> !error.is_arithmetic(),
{
    if spot_market_index == QUOTE_SPOT_MARKET_INDEX {
        if initial_asset_weight != SPOT_WEIGHT_PRECISION {
            return Err(
                ErrorCode::InvalidSpotMarketInitialization(WeightRule::QuoteInitialAssetWeight),
            );
        }
        if maintenance_asset_weight != SPOT_WEIGHT_PRECISION {
            return Err(
                ErrorCode::InvalidSpotMarketInitialization(WeightRule::QuoteMaintenanceAssetWeight),
            );
        }
        if initial_liability_weight != SPOT_WEIGHT_PRECISION {
            return Err(
                ErrorCode::InvalidSpotMarketInitialization(WeightRule::QuoteInitialLiabilityWeight),
            );
        }
        if maintenance_liability_weight != SPOT_WEIGHT_PRECISION {
            return Err(
                ErrorCode::InvalidSpotMarketInitialization(
                    WeightRule::QuoteMaintenanceLiabilityWeight,
                ),
            );
        }
    } else {
        if initial_asset_weight >= SPOT_WEIGHT_PRECISION {
            return Err(ErrorCode::InvalidSpotMarketInitialization(WeightRule::InitialAssetWeight));
        }
        if !(initial_asset_weight <= maintenance_asset_weight && maintenance_asset_weight > 0
            && maintenance_asset_weight < SPOT_WEIGHT_PRECISION) {
            return Err(
                ErrorCode::InvalidSpotMarketInitialization(WeightRule::MaintenanceAssetWeight),
            );
        }
        if initial_liability_weight <= SPOT_WEIGHT_PRECISION {
            return Err(
                ErrorCode::InvalidSpotMarketInitialization(WeightRule::InitialLiabilityWeight),
            );
        }
        if !(initial_liability_weight >= maintenance_liability_weight
            && maintenance_liability_weight > SPOT_WEIGHT_PRECISION) {
            return Err(
                ErrorCode::InvalidSpotMarketInitialization(WeightRule::MaintenanceLiabilityWeight),
            );
        }
    }
    if imf_factor >= SPOT_IMF_PRECISION {
        return Err(ErrorCode::InvalidSpotMarketInitialization(WeightRule::ImfFactor));
    }
    Ok(())
}

} // verus!
