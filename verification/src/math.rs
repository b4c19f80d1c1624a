//! Multiply-then-divide on 64-bit amounts through a 128-bit intermediate.

use vstd::prelude::*;
use crate::error::DexError;

verus! {

/// `amount * multiplier / divisor` over the integers, rounded down.
///
/// Meaningful for a non-zero divisor only.
pub open spec fn scaled(amount: u64, multiplier: u64, divisor: u64) -> int
    recommends
        divisor != 0,
{
    (amount as int * multiplier as int) / (divisor as int)
}

/// What scaling an amount by the ratio `multiplier / divisor` gives: the
/// rounded-down quotient when it fits 64 bits, and otherwise the reason why
/// there is none.
pub open spec fn scale(amount: u64, multiplier: u64, divisor: u64) -> Result<u64, DexError> {
    if divisor == 0 {
        Err(DexError::DivisionByZero)
    } else if scaled(amount, multiplier, divisor) > u64::MAX {
        Err(DexError::MathOverflow)
    } else {
        Ok(scaled(amount, multiplier, divisor) as u64)
    }
}

/// The product of two 64-bit values fits 128 bits.
pub proof fn lemma_product_fits_u128(a: u64, b: u64)
    ensures
        0 <= a as int * b as int <= u128::MAX,
{
    assert(0 <= a as int * b as int <= 0xffff_ffff_ffff_ffff * 0xffff_ffff_ffff_ffff)
        by (nonlinear_arith)
        requires
            0 <= a as int <= 0xffff_ffff_ffff_ffff,
            0 <= b as int <= 0xffff_ffff_ffff_ffff,
    ;
}

/// Scales `a` by `num / den`: multiplies in 128 bits, divides rounding
/// towards zero, and narrows the quotient back to 64 bits.
pub fn mul_div_u64(a: u64, num: u64, den: u64) -> (res: Result<u64, DexError>)
    ensures
        res == scale(a, num, den),
{
    if den == 0 {
        return Err(DexError::DivisionByZero);
    }
    proof {
        lemma_product_fits_u128(a, num);
    }
    let product: u128 = match (a as u128).checked_mul(num as u128) {
        Some(p) => p,
        None => {
            return Err(DexError::MathOverflow);
        },
    };
    let quotient: u128 = match product.checked_div(den as u128) {
        Some(q) => q,
        None => {
            return Err(DexError::DivisionByZero);
        },
    };
    match u64::try_from(quotient) {
        Ok(v) => Ok(v),
        Err(_) => Err(DexError::MathOverflow),
    }
}

/// Scaling nothing gives nothing, whatever the ratio.
pub proof fn lemma_scale_of_zero(multiplier: u64, divisor: u64)
    requires
        divisor != 0,
    ensures
        scale(0, multiplier, divisor) == Ok::<u64, DexError>(0u64),
{
    assert(0 * (multiplier as int) == 0);
    assert(0int / (divisor as int) == 0);
}

/// A scaled amount that is not zero comes from an amount that is not zero.
pub proof fn lemma_scale_positive(amount: u64, multiplier: u64, divisor: u64)
    requires
        divisor != 0,
        scaled(amount, multiplier, divisor) > 0,
    ensures
        amount > 0,
{
    if amount == 0 {
        lemma_scale_of_zero(multiplier, divisor);
    }
}

/// Scaling there and back loses at most what the two roundings lose: for
/// `there = amount * a / b` and `back = there * b / a`, the amount that comes
/// back is no more than what went in, and the difference, taken `a` times, is
/// less than `a + b - 1`.
pub proof fn lemma_scale_round_trip(amount: u64, a: u64, b: u64)
    requires
        a != 0,
        b != 0,
        scaled(amount, a, b) <= u64::MAX,
    ensures
        ({
            let there = scaled(amount, a, b) as u64;
            let back = scaled(there, b, a);
            &&& 0 <= back <= amount
            &&& (amount - back) * a <= a + b - 2
        }),
{
    let there = scaled(amount, a, b) as u64;
    let back = scaled(there, b, a);
    let product_there = amount as int * a as int;
    let product_back = there as int * b as int;
    lemma_product_fits_u128(amount, a);
    lemma_product_fits_u128(there, b);
    vstd::arithmetic::div_mod::lemma_fundamental_div_mod(product_there, b as int);
    vstd::arithmetic::div_mod::lemma_fundamental_div_mod(product_back, a as int);
    vstd::arithmetic::div_mod::lemma_mod_bound(product_there, b as int);
    vstd::arithmetic::div_mod::lemma_mod_bound(product_back, a as int);
    let r1 = product_there % (b as int);
    let r2 = product_back % (a as int);
    assert(product_there == b as int * (there as int) + r1);
    assert(product_back == a as int * back + r2);
    assert((amount - back) * a == r1 + r2) by (nonlinear_arith)
        requires
            amount as int * a as int == b as int * (there as int) + r1,
            there as int * b as int == a as int * back + r2,
    ;
    assert(back >= 0) by (nonlinear_arith)
        requires
            product_back >= 0,
            a > 0,
            back == product_back / (a as int),
    ;
    assert(back <= amount) by (nonlinear_arith)
        requires
            (amount - back) * a == r1 + r2,
            r1 + r2 >= 0,
            a > 0,
    ;
}

} // verus!
