//! Order sizes.
use vstd::prelude::*;
use crate::error::ErrorCode;

verus! {

/// The largest multiple of the step size that does not exceed the amount.
pub open spec fn standardized(base_asset_amount: int, step_size: int) -> int {
    base_asset_amount - base_asset_amount % step_size
}

/// Rounds an amount down to a multiple of the step size. Fails with
/// `MathError` when the step size is zero.
pub fn standardize_base_asset_amount(base_asset_amount: u64, step_size: u64) -> (r: Result<
    u64,
    ErrorCode,
>)
    ensures
        step_size == 0 ==> r == Err::<u64, ErrorCode>(ErrorCode::MathError),
        step_size > 0 ==> r == Ok::<u64, ErrorCode>(
            standardized(base_asset_amount as int, step_size as int) as u64,
        ),
        r matches Ok(amount) ==> amount <= base_asset_amount && amount % step_size == 0
            && base_asset_amount - amount < step_size,
{
    let remainder: u64 = base_asset_amount.checked_rem_euclid(step_size).ok_or(
        ErrorCode::MathError,
    )?;
    proof {
        lemma_standardized_is_multiple(base_asset_amount as int, step_size as int);
    }
    base_asset_amount.checked_sub(remainder).ok_or(ErrorCode::MathError)
}

/// Rounding down gives a multiple of the step that is at most the amount and
/// less than one step below it.
pub proof fn lemma_standardized_is_multiple(base_asset_amount: int, step_size: int)
    requires
        0 <= base_asset_amount,
        0 < step_size,
    ensures
        0 <= standardized(base_asset_amount, step_size) <= base_asset_amount,
        base_asset_amount - standardized(base_asset_amount, step_size) < step_size,
        standardized(base_asset_amount, step_size) % step_size == 0,
        standardized(base_asset_amount, step_size) == (base_asset_amount / step_size) * step_size,
{
    vstd::arithmetic::div_mod::lemma_fundamental_div_mod(base_asset_amount, step_size);
    vstd::arithmetic::div_mod::lemma_mod_bound(base_asset_amount, step_size);
    vstd::arithmetic::div_mod::lemma_div_pos_is_pos(base_asset_amount, step_size);
    vstd::arithmetic::mul::lemma_mul_nonnegative(step_size, base_asset_amount / step_size);
    vstd::arithmetic::mul::lemma_mul_is_commutative(step_size, base_asset_amount / step_size);
    vstd::arithmetic::div_mod::lemma_mod_multiples_basic(base_asset_amount / step_size, step_size);
}

/// Rounding down keeps the order of two amounts.
pub proof fn lemma_standardized_is_monotone(smaller: int, larger: int, step_size: int)
    requires
        0 <= smaller <= larger,
        0 < step_size,
    ensures
        standardized(smaller, step_size) <= standardized(larger, step_size),
{
    lemma_standardized_is_multiple(smaller, step_size);
    lemma_standardized_is_multiple(larger, step_size);
    vstd::arithmetic::div_mod::lemma_div_is_ordered(smaller, larger, step_size);
    vstd::arithmetic::mul::lemma_mul_inequality(
        smaller / step_size,
        larger / step_size,
        step_size,
    );
}

} // verus!
