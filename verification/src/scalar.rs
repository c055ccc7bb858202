//! Scalar elements of a numeric buffer.
//!
//! Every element is carried as the bit pattern of an IEEE-754 binary64
//! number, held in a `u64`.  The arithmetic itself is done by the
//! `rustc_apfloat` crate, which implements IEEE-754 in software directly on
//! bit patterns; each operation below is deterministic, a pure function of
//! the argument bits, so each is given a name that contracts can speak of.

use rustc_apfloat::ieee::Double;
use rustc_apfloat::Float;
use vstd::prelude::*;

verus! {

/// The IEEE-754 binary64 bit pattern of the number one.
pub const ONE_BITS: u64 = 0x3FF0000000000000;

/// The IEEE-754 binary64 bit pattern of positive zero.
pub const ZERO_BITS: u64 = 0;

/// The bit pattern of the IEEE-754 sum of the numbers with bit patterns `a` and `b`.
pub uninterp spec fn add_bits(a: u64, b: u64) -> u64;

/// The bit pattern of the IEEE-754 difference of the numbers `a` and `b`.
pub uninterp spec fn sub_bits(a: u64, b: u64) -> u64;

/// The bit pattern of the IEEE-754 product of the numbers `a` and `b`.
pub uninterp spec fn mul_bits(a: u64, b: u64) -> u64;

/// The bit pattern of the IEEE-754 quotient of the numbers `a` and `b`.
pub uninterp spec fn div_bits(a: u64, b: u64) -> u64;

/// The bit pattern of the IEEE-754 negation of the number `a`.
pub uninterp spec fn neg_bits(a: u64) -> u64;

/// Whether the number with bit pattern `a` is ordered strictly below the
/// number with bit pattern `b` (false whenever either is a NaN).
pub uninterp spec fn lt_bits(a: u64, b: u64) -> bool;

/// Whether the number with bit pattern `a` is ordered at or below the
/// number with bit pattern `b` (false whenever either is a NaN).
pub uninterp spec fn le_bits(a: u64, b: u64) -> bool;

/// The bit pattern of the IEEE-754 number nearest to the natural number `n`.
pub uninterp spec fn nat_bits(n: usize) -> u64;

/// The bit pattern of `x` raised to the natural power `e`, built from
/// repeated IEEE-754 multiplication on an accumulator that starts at one.
pub open spec fn pow_bits(x: u64, e: nat) -> u64
    decreases e,
{
    if e == 0 {
        ONE_BITS
    } else {
        mul_bits(x, pow_bits(x, (e - 1) as nat))
    }
}

/// The bit pattern of the IEEE-754 sum of a sequence of numbers, folded
/// left to right from positive zero.
pub open spec fn sum_bits(s: Seq<u64>) -> u64
    decreases s.len(),
{
    if s.len() == 0 {
        ZERO_BITS
    } else {
        add_bits(sum_bits(s.drop_last()), s.last())
    }
}

/// Relies on rustc_apfloat's IEEE binary64 addition (`Double::add_r`,
/// rounding ties to even): the sum is a function of the argument bits alone.
#[verifier::external_body]
pub(crate) fn apf_add(a: u64, b: u64) -> (r: u64)
    ensures
        r == add_bits(a, b),
{
    let x = Double::from_bits(a as u128);
    let y = Double::from_bits(b as u128);
    (x + y).value.to_bits() as u64
}

/// Relies on rustc_apfloat's IEEE binary64 subtraction (`Double::sub_r`,
/// rounding ties to even): the difference is a function of the argument bits alone.
#[verifier::external_body]
pub(crate) fn apf_sub(a: u64, b: u64) -> (r: u64)
    ensures
        r == sub_bits(a, b),
{
    let x = Double::from_bits(a as u128);
    let y = Double::from_bits(b as u128);
    (x - y).value.to_bits() as u64
}

/// Relies on rustc_apfloat's IEEE binary64 multiplication (`Double::mul_r`,
/// rounding ties to even): the product is a function of the argument bits alone.
#[verifier::external_body]
pub(crate) fn apf_mul(a: u64, b: u64) -> (r: u64)
    ensures
        r == mul_bits(a, b),
{
    let x = Double::from_bits(a as u128);
    let y = Double::from_bits(b as u128);
    (x * y).value.to_bits() as u64
}

/// Relies on rustc_apfloat's IEEE binary64 division (`Double::div_r`,
/// rounding ties to even): the quotient is a function of the argument bits alone.
#[verifier::external_body]
pub(crate) fn apf_div(a: u64, b: u64) -> (r: u64)
    ensures
        r == div_bits(a, b),
{
    let x = Double::from_bits(a as u128);
    let y = Double::from_bits(b as u128);
    (x / y).value.to_bits() as u64
}

/// Relies on rustc_apfloat's IEEE binary64 negation (`Neg for IeeeFloat`,
/// a sign flip): the result is a function of the argument bits alone.
#[verifier::external_body]
pub(crate) fn apf_neg(a: u64) -> (r: u64)
    ensures
        r == neg_bits(a),
{
    let x = Double::from_bits(a as u128);
    (-x).to_bits() as u64
}

/// Relies on rustc_apfloat's IEEE binary64 comparison
/// (`PartialOrd for IeeeFloat`): the ordering is a function of the argument
/// bits alone, and a NaN compares below nothing.
#[verifier::external_body]
pub(crate) fn apf_lt(a: u64, b: u64) -> (r: bool)
    ensures
        r == lt_bits(a, b),
{
    let x = Double::from_bits(a as u128);
    let y = Double::from_bits(b as u128);
    x < y
}

/// Relies on rustc_apfloat's IEEE binary64 comparison
/// (`PartialOrd for IeeeFloat`): the ordering is a function of the argument
/// bits alone, and a NaN compares at-or-below nothing.
#[verifier::external_body]
pub(crate) fn apf_le(a: u64, b: u64) -> (r: bool)
    ensures
        r == le_bits(a, b),
{
    let x = Double::from_bits(a as u128);
    let y = Double::from_bits(b as u128);
    x <= y
}

/// Relies on rustc_apfloat's conversion from unsigned integers
/// (`Float::from_u128`, rounding ties to even): the result is a function of
/// the argument alone.
#[verifier::external_body]
pub(crate) fn apf_nat(n: usize) -> (r: u64)
    ensures
        r == nat_bits(n),
{
    let v = Double::from_u128(n as u128);
    v.value.to_bits() as u64
}

} // verus!
