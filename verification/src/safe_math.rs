//! Arithmetic on amounts that reports what does not fit.
use vstd::prelude::*;

use crate::types::Error;

verus! {

/// `value` is an amount that can be represented.
pub open spec fn fits(value: int) -> bool {
    i128::MIN <= value <= i128::MAX
}

/// Adds two amounts.
pub fn safe_add(a: i128, b: i128) -> (r: Result<i128, Error>)
    ensures
        fits(a + b) ==> r == Ok::<i128, Error>((a + b) as i128),
        !fits(a + b) ==> r == Err::<i128, Error>(Error::Overflow),
{
    match a.checked_add(b) {
        Some(sum) => Ok(sum),
        None => Err(Error::Overflow),
    }
}

/// Subtracts one amount from another.
pub fn safe_sub(a: i128, b: i128) -> (r: Result<i128, Error>)
    ensures
        fits(a - b) ==> r == Ok::<i128, Error>((a - b) as i128),
        !fits(a - b) ==> r == Err::<i128, Error>(Error::Underflow),
{
    match a.checked_sub(b) {
        Some(difference) => Ok(difference),
        None => Err(Error::Underflow),
    }
}

/// Multiplies two amounts.
pub fn safe_mul(a: i128, b: i128) -> (r: Result<i128, Error>)
    ensures
        fits(a * b) ==> r == Ok::<i128, Error>((a * b) as i128),
        !fits(a * b) ==> r == Err::<i128, Error>(Error::Overflow),
{
    match a.checked_mul(b) {
        Some(product) => Ok(product),
        None => Err(Error::Overflow),
    }
}

/// Takes `amount` out of `balance`, which must cover it. A negative amount is
/// refused like one that the balance does not cover.
pub fn safe_sub_balance(balance: i128, amount: i128) -> (r: Result<i128, Error>)
    ensures
        0 <= amount <= balance ==> r == Ok::<i128, Error>((balance - amount) as i128),
        !(0 <= amount <= balance) ==> r == Err::<i128, Error>(Error::InsufficientBalance),
{
    if 0 <= amount && amount <= balance {
        Ok(balance - amount)
    } else {
        Err(Error::InsufficientBalance)
    }
}

} // verus!
