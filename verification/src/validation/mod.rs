//! Acceptance rules for configurable parameters.
pub mod margin;
