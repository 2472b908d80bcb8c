//! The operations that change records.
pub mod position;
pub mod spot_balance;
pub mod spot_position;
