//! A bit-level model of IEEE-754 double-precision values.
//!
//! A double is represented here by its 64-bit pattern. The library
//! classifies patterns as NaN, infinite or finite, and states the
//! special-value rules that govern the sum of two doubles: a NaN operand
//! makes the sum NaN, an infinite operand fixes the sum to an infinity of
//! its sign, and two infinities of opposite sign make the sum NaN. Only
//! when both operands are finite is the sum left to rounded arithmetic,
//! which the hardware performs.

use vstd::prelude::*;

verus! {

/// Mask of the sign bit of a double's bit pattern.
pub const SIGN_MASK: u64 = 0x8000_0000_0000_0000;

/// Mask of the eleven exponent bits of a double's bit pattern.
pub const EXPONENT_MASK: u64 = 0x7FF0_0000_0000_0000;

/// Mask of the fifty-two fraction bits of a double's bit pattern.
pub const FRACTION_MASK: u64 = 0x000F_FFFF_FFFF_FFFF;

/// A pattern is NaN when every exponent bit is set and the fraction is not zero.
pub open spec fn spec_is_nan(bits: u64) -> bool {
    bits & EXPONENT_MASK == EXPONENT_MASK && bits & FRACTION_MASK != 0
}

/// A pattern is infinite when every exponent bit is set and the fraction is zero.
pub open spec fn spec_is_infinite(bits: u64) -> bool {
    bits & EXPONENT_MASK == EXPONENT_MASK && bits & FRACTION_MASK == 0
}

/// A pattern is finite when at least one exponent bit is clear.
pub open spec fn spec_is_finite(bits: u64) -> bool {
    bits & EXPONENT_MASK != EXPONENT_MASK
}

/// A pattern carries a negative sign when its sign bit is set.
pub open spec fn spec_is_sign_negative(bits: u64) -> bool {
    bits & SIGN_MASK != 0
}

/// Whether the pattern encodes a NaN.
pub fn is_nan(bits: u64) -> (r: bool)
    ensures
        r == spec_is_nan(bits),
{
    bits & EXPONENT_MASK == EXPONENT_MASK && bits & FRACTION_MASK != 0
}

/// Whether the pattern encodes a positive or negative infinity.
pub fn is_infinite(bits: u64) -> (r: bool)
    ensures
        r == spec_is_infinite(bits),
{
    bits & EXPONENT_MASK == EXPONENT_MASK && bits & FRACTION_MASK == 0
}

/// Whether the pattern encodes a finite value, zero and subnormals included.
pub fn is_finite(bits: u64) -> (r: bool)
    ensures
        r == spec_is_finite(bits),
{
    bits & EXPONENT_MASK != EXPONENT_MASK
}

/// Whether the pattern carries a negative sign.
pub fn is_sign_negative(bits: u64) -> (r: bool)
    ensures
        r == spec_is_sign_negative(bits),
{
    bits & SIGN_MASK != 0
}

/// What the special-value rules of IEEE-754 addition determine about a sum.
#[derive(Clone, Copy, Debug, PartialEq, Eq, Structural)]
pub enum SpecialSum {
    /// The sum is a NaN: an operand is NaN, or two infinities of opposite
    /// sign meet.
    Nan,
    /// An infinite operand fixes the sum to an infinity of this sign.
    Infinity { negative: bool },
}

/// What the special-value rules determine about the sum of two patterns:
/// `None` exactly when both operands are finite, so that the sum is the
/// correctly rounded real sum, which overflow may still carry to an infinity.
pub open spec fn spec_special_sum(a: u64, b: u64) -> Option<SpecialSum> {
    if spec_is_nan(a) || spec_is_nan(b) {
        Some(SpecialSum::Nan)
    } else if spec_is_infinite(a) && spec_is_infinite(b) {
        if spec_is_sign_negative(a) == spec_is_sign_negative(b) {
            Some(SpecialSum::Infinity { negative: spec_is_sign_negative(a) })
        } else {
            Some(SpecialSum::Nan)
        }
    } else if spec_is_infinite(a) {
        Some(SpecialSum::Infinity { negative: spec_is_sign_negative(a) })
    } else if spec_is_infinite(b) {
        Some(SpecialSum::Infinity { negative: spec_is_sign_negative(b) })
    } else {
        None
    }
}

/// Resolves the special-value rules for the sum of the doubles whose bit
/// patterns are `a` and `b`. `None` means both operands are finite and the
/// sum is left to rounded arithmetic.
pub fn special_sum(a: u64, b: u64) -> (r: Option<SpecialSum>)
    ensures
        r == spec_special_sum(a, b),
        r is None <==> spec_is_finite(a) && spec_is_finite(b),
{
    if is_nan(a) || is_nan(b) {
        Some(SpecialSum::Nan)
    } else if is_infinite(a) && is_infinite(b) {
        if is_sign_negative(a) == is_sign_negative(b) {
            Some(SpecialSum::Infinity { negative: is_sign_negative(a) })
        } else {
            Some(SpecialSum::Nan)
        }
    } else if is_infinite(a) {
        Some(SpecialSum::Infinity { negative: is_sign_negative(a) })
    } else if is_infinite(b) {
        Some(SpecialSum::Infinity { negative: is_sign_negative(b) })
    } else {
        None
    }
}

/// What the special-value rules determine about a sum does not depend on
/// the order of the operands.
pub proof fn lemma_special_sum_commutes(a: u64, b: u64)
    ensures
        spec_special_sum(a, b) == spec_special_sum(b, a),
{
}

/// Every pattern falls under exactly one of the three classes: NaN,
/// infinite, or finite.
pub proof fn lemma_classes_partition(bits: u64)
    ensures
        spec_is_nan(bits) || spec_is_infinite(bits) || spec_is_finite(bits),
        !(spec_is_nan(bits) && spec_is_infinite(bits)),
        !(spec_is_nan(bits) && spec_is_finite(bits)),
        !(spec_is_infinite(bits) && spec_is_finite(bits)),
{
}

} // verus!
