//! Conversion between tokens and the balances of a spot market.
//!
//! A balance is a number of tokens divided by the cumulative interest of its
//! side, kept at `SPOT_BALANCE_DECIMALS` decimals less those of the token. As
//! interest accrues, the same balance is worth more tokens. A balance that is
//! held is worth the tokens rounded down, one that is owed the tokens rounded
//! up; the way from tokens to a balance rounds down unless the caller asks
//! for more.
use vstd::prelude::*;
use vstd::arithmetic::power::pow;
use crate::error::ErrorCode;
use crate::math::constants::SPOT_BALANCE_DECIMALS;
use crate::state::spot_market::{SpotBalanceType, SpotMarket};

verus! {

/// The factor between tokens times interest and balances, for a token with
/// the given decimals: ten to the power of the decimals that are missing up to
/// `SPOT_BALANCE_DECIMALS`.
pub open spec fn balance_precision(decimals: u8) -> int {
    pow(10, (SPOT_BALANCE_DECIMALS - decimals) as nat)
}

/// The quotient of two natural numbers, rounded up.
pub open spec fn ceil_div(dividend: int, divisor: int) -> int {
    if dividend % divisor > 0 {
        dividend / divisor + 1
    } else {
        dividend / divisor
    }
}

/// The balance that stands for an amount of tokens on the given side of the
/// market. Rounding up adds one unit to every balance but zero. `MathError`
/// where the decimals of the token exceed `SPOT_BALANCE_DECIMALS`, the
/// cumulative interest is zero, or a step does not fit unsigned 128 bits.
pub open spec fn scaled_balance(
    token_amount: u128,
    spot_market: SpotMarket,
    balance_type: SpotBalanceType,
    round_up: bool,
) -> Result<u128, ErrorCode> {
    let precision = balance_precision(spot_market.decimals);
    let interest = spot_market.cumulative_interest(balance_type);
    let exact = token_amount * precision / (interest as int);
    let balance = if round_up && exact != 0 {
        exact + 1
    } else {
        exact
    };
    if spot_market.decimals > SPOT_BALANCE_DECIMALS || token_amount * precision > u128::MAX
        || interest == 0 || balance > u128::MAX {
        Err(ErrorCode::MathError)
    } else {
        Ok(balance as u128)
    }
}

/// The tokens that a balance on the given side of the market is worth:
/// rounded down for a deposit, up for a borrow. `MathError` where the decimals
/// of the token exceed `SPOT_BALANCE_DECIMALS` or the balance with its interest
/// does not fit unsigned 128 bits.
pub open spec fn token_value(
    balance: u128,
    spot_market: SpotMarket,
    balance_type: SpotBalanceType,
) -> Result<u128, ErrorCode> {
    let precision = balance_precision(spot_market.decimals);
    let with_interest = balance * spot_market.cumulative_interest(balance_type);
    if spot_market.decimals > SPOT_BALANCE_DECIMALS || with_interest > u128::MAX {
        Err(ErrorCode::MathError)
    } else {
        Ok(
            match balance_type {
                SpotBalanceType::Deposit => (with_interest / precision) as u128,
                SpotBalanceType::Borrow => ceil_div(with_interest, precision) as u128,
            },
        )
    }
}

/// The factor of a token whose decimals a balance can hold is at least one
/// and at most ten to the power of nineteen.
pub proof fn lemma_balance_precision_bounds(decimals: u8)
    requires
        decimals <= SPOT_BALANCE_DECIMALS,
    ensures
        1 <= balance_precision(decimals) <= 10_000_000_000_000_000_000,
{
    assert(pow(10, 19) == 10_000_000_000_000_000_000) by {
        reveal_with_fuel(pow, 20);
    }
    vstd::arithmetic::power::lemma_pow_increases(10, (SPOT_BALANCE_DECIMALS - decimals) as nat, 19);
    vstd::arithmetic::power::lemma_pow_positive(10, (SPOT_BALANCE_DECIMALS - decimals) as nat);
}

/// Computes `balance_precision`, or fails with `MathError` where the token
/// has more decimals than a balance.
fn get_balance_precision(decimals: u8) -> (r: Result<u128, ErrorCode>)
    ensures
        decimals > SPOT_BALANCE_DECIMALS ==> r == Err::<u128, ErrorCode>(ErrorCode::MathError),
        decimals <= SPOT_BALANCE_DECIMALS ==> r == Ok::<u128, ErrorCode>(
            balance_precision(decimals) as u128,
        ) && 1 <= balance_precision(decimals) <= u128::MAX,
{
    let exponent: u8 = SPOT_BALANCE_DECIMALS.checked_sub(decimals).ok_or(ErrorCode::MathError)?;
    let mut precision: u128 = 1;
    let mut done: u8 = 0;
    proof {
        lemma_balance_precision_bounds(decimals);
        reveal_with_fuel(pow, 1);
    }
    while done < exponent
        invariant
            done <= exponent <= 19,
            precision == pow(10, done as nat),
        decreases exponent - done,
    {
        proof {
            lemma_balance_precision_bounds((SPOT_BALANCE_DECIMALS - (done + 1)) as u8);
            reveal_with_fuel(pow, 1);
        }
        precision = precision * 10;
        done = done + 1;
    }
    Ok(precision)
}

/// Converts an amount of tokens to a balance on the given side of the market.
pub fn get_spot_balance(
    token_amount: u128,
    spot_market: &SpotMarket,
    balance_type: &SpotBalanceType,
    round_up: bool,
) -> (r: Result<u128, ErrorCode>)
    ensures
        r == scaled_balance(token_amount, *spot_market, *balance_type, round_up),
{
    let precision_increase: u128 = get_balance_precision(spot_market.decimals)?;
    let cumulative_interest: u128 = match balance_type {
        SpotBalanceType::Deposit => spot_market.cumulative_deposit_interest,
        SpotBalanceType::Borrow => spot_market.cumulative_borrow_interest,
    };
    let mut balance: u128 = token_amount.checked_mul(precision_increase).ok_or(
        ErrorCode::MathError,
    )?.checked_div(cumulative_interest).ok_or(ErrorCode::MathError)?;
    if round_up && balance != 0 {
        balance = balance.checked_add(1).ok_or(ErrorCode::MathError)?;
    }
    Ok(balance)
}

/// Converts a balance on the given side of the market to tokens.
pub fn get_token_amount(
    balance: u128,
    spot_market: &SpotMarket,
    balance_type: &SpotBalanceType,
) -> (r: Result<u128, ErrorCode>)
    ensures
        r == token_value(balance, *spot_market, *balance_type),
{
    let precision_decrease: u128 = get_balance_precision(spot_market.decimals)?;
    let cumulative_interest: u128 = match balance_type {
        SpotBalanceType::Deposit => spot_market.cumulative_deposit_interest,
        SpotBalanceType::Borrow => spot_market.cumulative_borrow_interest,
    };
    let with_interest: u128 = balance.checked_mul(cumulative_interest).ok_or(
        ErrorCode::MathError,
    )?;
    let quotient: u128 = with_interest / precision_decrease;
    let token_amount: u128 = match balance_type {
        SpotBalanceType::Deposit => quotient,
        SpotBalanceType::Borrow => {
            if with_interest % precision_decrease > 0 {
                proof {
                    lemma_quotient_within_dividend(with_interest as int, precision_decrease as int);
                }
                quotient + 1
            } else {
                quotient
            }
        },
    };
    Ok(token_amount)
}

/// A quotient of natural numbers, rounded down or up, lies between zero and
/// the dividend.
pub proof fn lemma_quotient_within_dividend(dividend: int, divisor: int)
    requires
        0 <= dividend,
        0 < divisor,
    ensures
        0 <= dividend / divisor <= ceil_div(dividend, divisor) <= dividend,
{
    vstd::arithmetic::div_mod::lemma_fundamental_div_mod(dividend, divisor);
    vstd::arithmetic::div_mod::lemma_div_pos_is_pos(dividend, divisor);
    let quotient = dividend / divisor;
    assert(quotient <= divisor * quotient) by (nonlinear_arith)
        requires
            0 <= quotient,
            1 <= divisor,
    ;
}

/// A balance of nothing is worth no tokens, on either side, wherever it can
/// be converted.
pub proof fn lemma_no_balance_is_worth_nothing(
    spot_market: SpotMarket,
    balance_type: SpotBalanceType,
)
    requires
        spot_market.decimals <= SPOT_BALANCE_DECIMALS,
    ensures
        token_value(0, spot_market, balance_type) == Ok::<u128, ErrorCode>(0),
{
    let precision = balance_precision(spot_market.decimals);
    let interest = spot_market.cumulative_interest(balance_type) as int;
    lemma_balance_precision_bounds(spot_market.decimals);
    assert(0 * interest == 0) by (nonlinear_arith);
    vstd::arithmetic::div_mod::lemma_small_mod(0, precision as nat);
    vstd::arithmetic::div_mod::lemma_div_of0(precision);
}

/// No tokens make no balance, on either side and however it is rounded,
/// wherever they can be converted.
pub proof fn lemma_no_tokens_make_no_balance(
    spot_market: SpotMarket,
    balance_type: SpotBalanceType,
    round_up: bool,
)
    requires
        spot_market.decimals <= SPOT_BALANCE_DECIMALS,
        spot_market.cumulative_interest(balance_type) > 0,
    ensures
        scaled_balance(0, spot_market, balance_type, round_up) == Ok::<u128, ErrorCode>(0),
{
    let precision = balance_precision(spot_market.decimals);
    let interest = spot_market.cumulative_interest(balance_type) as int;
    assert(0 * precision == 0) by (nonlinear_arith);
    vstd::arithmetic::div_mod::lemma_div_of0(interest);
}

/// Rounding a quotient up keeps the order of two dividends.
pub proof fn lemma_ceil_div_is_monotone(smaller: int, larger: int, divisor: int)
    requires
        0 <= smaller <= larger,
        0 < divisor,
    ensures
        0 <= ceil_div(smaller, divisor) <= ceil_div(larger, divisor),
{
    vstd::arithmetic::div_mod::lemma_fundamental_div_mod(smaller, divisor);
    vstd::arithmetic::div_mod::lemma_fundamental_div_mod(larger, divisor);
    vstd::arithmetic::div_mod::lemma_mod_bound(smaller, divisor);
    vstd::arithmetic::div_mod::lemma_mod_bound(larger, divisor);
    vstd::arithmetic::div_mod::lemma_div_is_ordered(smaller, larger, divisor);
    vstd::arithmetic::div_mod::lemma_div_pos_is_pos(smaller, divisor);
}

/// A smaller balance is worth no more tokens: wherever a balance can be
/// converted, so can every smaller one on the same side of the same market,
/// and to at most as many tokens.
pub proof fn lemma_token_value_is_monotone(
    smaller: u128,
    larger: u128,
    spot_market: SpotMarket,
    balance_type: SpotBalanceType,
)
    requires
        smaller <= larger,
        token_value(larger, spot_market, balance_type) is Ok,
    ensures
        token_value(smaller, spot_market, balance_type) is Ok,
        token_value(smaller, spot_market, balance_type)->Ok_0 <= token_value(
            larger,
            spot_market,
            balance_type,
        )->Ok_0,
{
    let precision = balance_precision(spot_market.decimals);
    let interest = spot_market.cumulative_interest(balance_type) as int;
    lemma_balance_precision_bounds(spot_market.decimals);
    vstd::arithmetic::mul::lemma_mul_inequality(smaller as int, larger as int, interest);
    vstd::arithmetic::mul::lemma_mul_nonnegative(smaller as int, interest);
    vstd::arithmetic::div_mod::lemma_div_is_ordered(smaller * interest, larger * interest, precision);
    vstd::arithmetic::div_mod::lemma_div_pos_is_pos(smaller * interest, precision);
    lemma_ceil_div_is_monotone(smaller * interest, larger * interest, precision);
    lemma_quotient_within_dividend(smaller * interest, precision);
    lemma_quotient_within_dividend(larger * interest, precision);
}

} // verus!
