//! The errors of the crate.
use vstd::prelude::*;

verus! {

/// A rule that `validate_margin` enforces on the margin parameters of a
/// derivative market. The variants stand in the order in which the rules are
/// tried.
#[derive(Clone, Copy, Debug, PartialEq, Eq, Structural)]
pub enum MarginRule {
    /// The initial margin ratio lies within the global minimum and maximum.
    InitialRatioWithinBounds,
    /// The initial margin ratio is at least the maintenance margin ratio.
    InitialCoversMaintenance,
    /// The maintenance margin ratio lies within the global minimum and maximum.
    MaintenanceRatioWithinBounds,
    /// The maintenance margin, brought to the scale of the liquidation fee,
    /// exceeds the liquidation fee.
    MaintenanceExceedsLiquidationFee,
    /// A hundred times the initial margin ratio exceeds the largest spread.
    InitialExceedsMaxSpread,
}

/// A rule that `validate_margin_weights` enforces on the weights of a spot
/// market. The variants stand in the order in which the rules are tried; the
/// first four apply to the quote market only, the next four to every other
/// market, the last one to all.
#[derive(Clone, Copy, Debug, PartialEq, Eq, Structural)]
pub enum WeightRule {
    /// Quote market: the initial asset weight is the full weight.
    QuoteInitialAssetWeight,
    /// Quote market: the maintenance asset weight is the full weight.
    QuoteMaintenanceAssetWeight,
    /// Quote market: the initial liability weight is the full weight.
    QuoteInitialLiabilityWeight,
    /// Quote market: the maintenance liability weight is the full weight.
    QuoteMaintenanceLiabilityWeight,
    /// The initial asset weight is below the full weight.
    InitialAssetWeight,
    /// The maintenance asset weight is positive, at least the initial asset
    /// weight and below the full weight.
    MaintenanceAssetWeight,
    /// The initial liability weight is above the full weight.
    InitialLiabilityWeight,
    /// The maintenance liability weight is above the full weight and at most
    /// the initial liability weight.
    MaintenanceLiabilityWeight,
    /// The factor of the size-dependent margin is below its precision.
    ImfFactor,
}

/// Why an operation was refused.
///
/// `MathError` and `CastingFailure` are the arithmetic errors: an overflow, an
/// underflow or a division by zero, and a value that does not fit the type it
/// is converted to. The others are validation errors and name the rule that was
/// broken.
#[derive(Clone, Copy, Debug, PartialEq, Eq, Structural)]
pub enum ErrorCode {
    /// A checked operation overflowed, underflowed or divided by zero.
    MathError,
    /// A value does not fit the integer type it was to be converted to.
    CastingFailure,
    /// The margin parameters break the given rule.
    InvalidMarginRatio(MarginRule),
    /// The weights of a spot market break the given rule.
    InvalidSpotMarketInitialization(WeightRule),
    /// After a borrow the market would owe more tokens than it holds.
    SpotMarketInsufficientDeposits,
    /// The two positions of a transfer belong to different markets.
    MarketIndexMismatch,
}

impl ErrorCode {
    /// Whether the error is one of the two arithmetic errors.
    pub open spec fn is_arithmetic(self) -> bool {
        self is MathError || self is CastingFailure
    }
}

} // verus!
