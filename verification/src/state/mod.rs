//! The records that the engines read and change.
pub mod market;
pub mod spot_market;
pub mod user;
