//! Scalar IEEE 754 binary32 lane arithmetic over raw bit patterns.
//!
//! Every lane of a vector is carried as the `u32` bit pattern of a binary32
//! value. The arithmetic itself is delegated to a software implementation of
//! IEEE 754, so a lane result is a deterministic function of the operand bit
//! patterns; the functions `fadd` and `ffmadd` name those results.

use vstd::prelude::*;
use rustc_apfloat::Float;

verus! {

/// The exponent field of a binary32 bit pattern.
pub open spec fn exponent_bits(x: u32) -> u32 {
    (x >> 23) & 0xff
}

/// The significand field of a binary32 bit pattern.
pub open spec fn significand_bits(x: u32) -> u32 {
    x & 0x7f_ffff
}

/// Whether a binary32 bit pattern is a NaN: exponent all ones and a
/// non-zero significand.
pub open spec fn is_nan_bits(x: u32) -> bool {
    exponent_bits(x) == 0xff && significand_bits(x) != 0
}

/// The bit pattern of the negated binary32 value: IEEE 754 negation flips
/// the sign bit and leaves every other bit alone.
pub open spec fn flip_sign_bits(x: u32) -> u32 {
    x ^ 0x8000_0000
}

/// The bit pattern that IEEE 754 binary32 addition, rounding to nearest with
/// ties to even, gives for the two operand bit patterns.
pub uninterp spec fn fadd(a: u32, b: u32) -> u32;

/// The bit pattern that the IEEE 754 binary32 fused multiply-add, rounding to
/// nearest with ties to even, gives for `(a * b) + c` on the operand bit
/// patterns: one multiplication and one addition with a single rounding.
pub uninterp spec fn ffmadd(a: u32, b: u32, c: u32) -> u32;

/// The bit pattern of the fused `(a * b) - c`: by IEEE 754 this is the fused
/// multiply-add of `a`, `b` and the negation of `c`, and negation is a pure
/// sign-bit flip.
pub open spec fn ffmsub(a: u32, b: u32, c: u32) -> u32 {
    ffmadd(a, b, flip_sign_bits(c))
}

/// Negates a binary32 bit pattern by flipping its sign bit.
pub fn neg_bits(x: u32) -> (r: u32)
    ensures
        r == flip_sign_bits(x),
{
    x ^ 0x8000_0000
}

/// Relies on `rustc_apfloat::ieee::Single` (`from_bits`, `add_r`, `to_bits`):
/// a software IEEE 754 binary32 addition, rounding to nearest with ties to
/// even, whose result is a deterministic function of the operand bit
/// patterns. Its source further shows that adding two positive zeros gives a
/// positive zero, and that for operands that are not NaN the result does not
/// depend on the operand order (the special cases are handled symmetrically
/// and an invalid operation yields the one default NaN).
#[verifier::external_body]
pub(crate) fn add_bits(a: u32, b: u32) -> (r: u32)
    ensures
        r == fadd(a, b),
        !is_nan_bits(a) && !is_nan_bits(b) ==> r == fadd(b, a),
        a == 0 && b == 0 ==> r == 0,
{
    let x = rustc_apfloat::ieee::Single::from_bits(a as u128);
    let y = rustc_apfloat::ieee::Single::from_bits(b as u128);
    let s = x.add_r(y, rustc_apfloat::Round::NearestTiesToEven);
    s.value.to_bits() as u32
}

/// Relies on `rustc_apfloat::ieee::Single::mul_add_r` (with `from_bits` and
/// `to_bits`): the software IEEE 754 binary32 fused multiply-add
/// `(a * b) + c`, rounding to nearest with ties to even, whose result is a
/// deterministic function of the operand bit patterns. Its source further
/// shows that with both factors positive zero the product is a positive
/// zero, and adding a zero of either sign to it gives a positive zero under
/// this rounding.
#[verifier::external_body]
pub(crate) fn mul_add_bits(a: u32, b: u32, c: u32) -> (r: u32)
    ensures
        r == ffmadd(a, b, c),
        a == 0 && b == 0 && (c == 0 || c == 0x8000_0000) ==> r == 0,
{
    let x = rustc_apfloat::ieee::Single::from_bits(a as u128);
    let y = rustc_apfloat::ieee::Single::from_bits(b as u128);
    let z = rustc_apfloat::ieee::Single::from_bits(c as u128);
    let s = x.mul_add_r(y, z, rustc_apfloat::Round::NearestTiesToEven);
    s.value.to_bits() as u32
}

/// The fused `(a * b) - c` on bit patterns, as the fused multiply-add of the
/// negated third operand.
pub(crate) fn mul_sub_bits(a: u32, b: u32, c: u32) -> (r: u32)
    ensures
        r == ffmsub(a, b, c),
        a == 0 && b == 0 && c == 0 ==> r == 0,
{
    let nc = neg_bits(c);
    proof {
        if c == 0 {
            assert(0u32 ^ 0x8000_0000u32 == 0x8000_0000u32) by (bit_vector);
        }
    }
    mul_add_bits(a, b, nc)
}

} // verus!
