//! Fixed-point arithmetic: the precision constants, checked conversions
//! between integer widths, and the formulas built on them.
pub mod amm;
pub mod amm_jit;
pub mod casting;
pub mod constants;
pub mod orders;
pub mod spot_balance;
