//! Scalar arithmetic on IEEE-754 double bit patterns.
//!
//! A scalar is the `u64` bit pattern of a double. Each arithmetic operation is
//! an uninterpreted spec function together with a trusted wrapper that carries
//! it out in software floating point; round-to-nearest-even IEEE-754 results
//! depend on the operand bits alone, so naming them is sound.

use vstd::prelude::*;
use const_soft_float::soft_f64::SoftF64;

verus! {

/// The bits of the IEEE-754 double sum of the doubles with bits `a` and `b`.
pub uninterp spec fn add_bits(a: u64, b: u64) -> u64;

/// The bits of the IEEE-754 double difference of the doubles with bits `a` and `b`.
pub uninterp spec fn sub_bits(a: u64, b: u64) -> u64;

/// The bits of the IEEE-754 double product of the doubles with bits `a` and `b`.
pub uninterp spec fn mul_bits(a: u64, b: u64) -> u64;

/// The bits of the IEEE-754 double quotient of the doubles with bits `a` and `b`.
pub uninterp spec fn div_bits(a: u64, b: u64) -> u64;

/// The bits of the IEEE-754 double square root of the double with bits `a`.
pub uninterp spec fn sqrt_bits(a: u64) -> u64;

/// Relies on const_soft_float's `SoftF64::add`: IEEE-754 double addition,
/// round to nearest even, a function of the operand bit patterns alone.
#[verifier::external_body]
pub(crate) fn fp_add(a: u64, b: u64) -> (r: u64)
    ensures
        r == add_bits(a, b),
{
    SoftF64::from_bits(a).add(SoftF64::from_bits(b)).to_bits()
}

/// Relies on const_soft_float's `SoftF64::sub`: IEEE-754 double subtraction,
/// round to nearest even, a function of the operand bit patterns alone.
#[verifier::external_body]
pub(crate) fn fp_sub(a: u64, b: u64) -> (r: u64)
    ensures
        r == sub_bits(a, b),
{
    SoftF64::from_bits(a).sub(SoftF64::from_bits(b)).to_bits()
}

/// Relies on const_soft_float's `SoftF64::mul`: IEEE-754 double multiplication,
/// round to nearest even, a function of the operand bit patterns alone.
#[verifier::external_body]
pub(crate) fn fp_mul(a: u64, b: u64) -> (r: u64)
    ensures
        r == mul_bits(a, b),
{
    SoftF64::from_bits(a).mul(SoftF64::from_bits(b)).to_bits()
}

/// Relies on const_soft_float's `SoftF64::div`: IEEE-754 double division,
/// round to nearest even, a function of the operand bit patterns alone.
#[verifier::external_body]
pub(crate) fn fp_div(a: u64, b: u64) -> (r: u64)
    ensures
        r == div_bits(a, b),
{
    SoftF64::from_bits(a).div(SoftF64::from_bits(b)).to_bits()
}

/// Relies on const_soft_float's `SoftF64::sqrt`: correctly rounded IEEE-754
/// double square root, a function of the operand bit pattern alone.
#[verifier::external_body]
pub(crate) fn fp_sqrt(a: u64) -> (r: u64)
    ensures
        r == sqrt_bits(a),
{
    SoftF64::from_bits(a).sqrt().to_bits()
}

} // verus!
