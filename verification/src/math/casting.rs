//! Checked conversions between integer widths. None of them truncates: a
//! value that does not fit is refused with `CastingFailure`.
use vstd::prelude::*;
use crate::error::ErrorCode;

verus! {

/// Narrows an unsigned 128-bit value to 64 bits.
pub fn cast_to_u64(value: u128) -> (r: Result<u64, ErrorCode>)
    ensures
        value <= u64::MAX ==> r == Ok::<u64, ErrorCode>(value as u64),
        value > u64::MAX ==> r == Err::<u64, ErrorCode>(ErrorCode::CastingFailure),
{
    if value <= u64::MAX as u128 {
        Ok(value as u64)
    } else {
        Err(ErrorCode::CastingFailure)
    }
}

/// Converts an unsigned 128-bit value to a signed 64-bit value.
pub fn cast_to_i64(value: u128) -> (r: Result<i64, ErrorCode>)
    ensures
        value <= i64::MAX ==> r == Ok::<i64, ErrorCode>(value as i64),
        value > i64::MAX ==> r == Err::<i64, ErrorCode>(ErrorCode::CastingFailure),
{
    if value <= i64::MAX as u128 {
        Ok(value as i64)
    } else {
        Err(ErrorCode::CastingFailure)
    }
}

/// Converts an unsigned 128-bit value to a signed 128-bit value.
pub fn cast_to_i128(value: u128) -> (r: Result<i128, ErrorCode>)
    ensures
        value <= i128::MAX ==> r == Ok::<i128, ErrorCode>(value as i128),
        value > i128::MAX ==> r == Err::<i128, ErrorCode>(ErrorCode::CastingFailure),
{
    if value <= i128::MAX as u128 {
        Ok(value as i128)
    } else {
        Err(ErrorCode::CastingFailure)
    }
}

/// Converts a signed 128-bit value to an unsigned 128-bit value.
pub fn cast_to_u128(value: i128) -> (r: Result<u128, ErrorCode>)
    ensures
        value >= 0 ==> r == Ok::<u128, ErrorCode>(value as u128),
        value < 0 ==> r == Err::<u128, ErrorCode>(ErrorCode::CastingFailure),
{
    if value >= 0 {
        Ok(value as u128)
    } else {
        Err(ErrorCode::CastingFailure)
    }
}

/// The magnitude of a signed 128-bit value. It always fits: the magnitude of
/// the smallest value is one more than the largest value.
pub fn unsigned_abs(value: i128) -> (r: u128)
    ensures
        r == vstd::math::abs(value as int),
{
    if value >= 0 {
        value as u128
    } else if value == i128::MIN {
        0x8000_0000_0000_0000_0000_0000_0000_0000u128
    } else {
        (-value) as u128
    }
}

} // verus!
