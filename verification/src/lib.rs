//! Accounting and risk core of a leveraged trading venue.
//!
//! The crate holds three numeric engines and the small pieces they rest on:
//!
//! * the spot ledger ([`controller::spot_position`], [`controller::spot_balance`]),
//!   which moves an account's scaled balance and a market's pooled totals in
//!   tandem and tracks the exposure of resting orders;
//! * the just-in-time liquidity sizer ([`math::amm_jit`]), which decides how
//!   much of a resting maker order the automated market maker fills itself;
//! * the margin parameter validator ([`validation::margin`]), which accepts or
//!   rejects the risk weights an administrator wants to configure.
//!
//! Every executable function is total: it returns either a value or a typed
//! [`error::ErrorCode`], and its contract says exactly on which inputs each
//! of the two happens.
pub mod controller;
pub mod error;
pub mod math;
pub mod state;
pub mod validation;
