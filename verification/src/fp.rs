//! The scalar model: IEEE-754 binary64 values carried as `u64` bit patterns.
//!
//! Every scalar this library touches is a double-precision value represented
//! by its 64-bit encoding (sign bit, 11 exponent bits, 52 fraction bits).
//! Sign manipulation (absolute value, negation) and ordering are pure bit
//! logic and are implemented and verified here directly.  The four rounding
//! operations (addition, subtraction, multiplication, division) are performed
//! by the `rustc_apfloat` software implementation of IEEE-754 arithmetic and
//! are named, not restated: `add_bits` and its siblings are uninterpreted
//! functions that the trusted wrappers below tie to the outside calls.

use vstd::prelude::*;
use rustc_apfloat::Float;
use rustc_apfloat::Round;
use rustc_apfloat::ieee::Double;

verus! {

/// Mask of the sign bit of a binary64 encoding.
pub const SIGN_MASK: u64 = 0x8000_0000_0000_0000;
/// Mask of the exponent and fraction bits (everything but the sign).
pub const FRAC_EXP_MASK: u64 = 0x7fff_ffff_ffff_ffff;
/// Exponent bits all set, fraction zero: the encoding of positive infinity.
pub const INF_BITS: u64 = 0x7ff0_0000_0000_0000;

/// The encoding of `0.0`.
pub const F_ZERO: u64 = 0;
/// The encoding of `1.0`.
pub const F_ONE: u64 = 0x3ff0_0000_0000_0000;
/// The encoding of `2.0`.
pub const F_TWO: u64 = 0x4000_0000_0000_0000;
/// The encoding of `3.0`.
pub const F_THREE: u64 = 0x4008_0000_0000_0000;
/// The encoding of `6.0`.
pub const F_SIX: u64 = 0x4018_0000_0000_0000;
/// The encoding of `0.5`.
pub const F_HALF: u64 = 0x3fe0_0000_0000_0000;
/// The encoding of the machine epsilon of binary64, `2^-52`.
pub const F_EPSILON: u64 = 0x3cb0_0000_0000_0000;
/// The encoding of `1e-8`, the default tolerance of the bracketing solver.
pub const F_TOL_DEFAULT: u64 = 0x3e45_798e_e230_8c3a;
/// The encoding of `1 + 2^-52`, the value the bracketing solver seeds its
/// step tolerance with before the first bracket round computes the real one.
pub const F_ONE_PLUS_EPSILON: u64 = 0x3ff0_0000_0000_0001;

/// The magnitude field of an encoding: the sign bit cleared.
pub open spec fn abs_bits(x: u64) -> u64 {
    x & FRAC_EXP_MASK
}

/// The sign bit of an encoding; `true` means negative.
pub open spec fn sign_bits(x: u64) -> bool {
    x & SIGN_MASK == SIGN_MASK
}

/// Whether an encoding denotes a NaN: exponent all ones, fraction nonzero.
pub open spec fn is_nan_bits(x: u64) -> bool {
    abs_bits(x) > INF_BITS
}

/// The encoding with the sign bit flipped: IEEE-754 negation.
pub open spec fn neg_bits(x: u64) -> u64 {
    x ^ SIGN_MASK
}

/// The numeric order key of a non-NaN encoding.  Interpreting the magnitude
/// as a natural number and applying the sign yields an integer whose order
/// agrees with the numeric order of the encoded values, with both zeros at
/// key `0` and the infinities at the extremes.
pub open spec fn key_bits(x: u64) -> int {
    if sign_bits(x) {
        -(abs_bits(x) as int)
    } else {
        abs_bits(x) as int
    }
}

/// IEEE-754 `<` on encodings: false whenever either side is NaN.
pub open spec fn lt_bits(a: u64, b: u64) -> bool {
    !is_nan_bits(a) && !is_nan_bits(b) && key_bits(a) < key_bits(b)
}

/// IEEE-754 `<=` on encodings: false whenever either side is NaN.
pub open spec fn le_bits(a: u64, b: u64) -> bool {
    !is_nan_bits(a) && !is_nan_bits(b) && key_bits(a) <= key_bits(b)
}

/// IEEE-754 `>` on encodings.
pub open spec fn gt_bits(a: u64, b: u64) -> bool {
    lt_bits(b, a)
}

/// IEEE-754 `>=` on encodings.
pub open spec fn ge_bits(a: u64, b: u64) -> bool {
    le_bits(b, a)
}

/// IEEE-754 `==` on encodings: both zeros are equal, NaN equals nothing.
pub open spec fn eq_bits(a: u64, b: u64) -> bool {
    !is_nan_bits(a) && !is_nan_bits(b) && key_bits(a) == key_bits(b)
}

/// The larger of two encodings in the sense of `f64::max`: a NaN operand is
/// ignored in favour of the other.
pub open spec fn max_bits(a: u64, b: u64) -> u64 {
    if is_nan_bits(a) {
        b
    } else if is_nan_bits(b) {
        a
    } else if lt_bits(a, b) {
        b
    } else {
        a
    }
}

/// The binary64 sum of two encodings, rounded to nearest, ties to even.
pub uninterp spec fn add_bits(a: u64, b: u64) -> u64;

/// The binary64 difference of two encodings, rounded to nearest, ties to even.
pub uninterp spec fn sub_bits(a: u64, b: u64) -> u64;

/// The binary64 product of two encodings, rounded to nearest, ties to even.
pub uninterp spec fn mul_bits(a: u64, b: u64) -> u64;

/// The binary64 quotient of two encodings, rounded to nearest, ties to even.
pub uninterp spec fn div_bits(a: u64, b: u64) -> u64;

/// Absolute value: clears the sign bit, as `f64::abs` does.
pub fn fp_abs(x: u64) -> (r: u64)
    ensures
        r == abs_bits(x),
{
    x & FRAC_EXP_MASK
}

/// Negation: flips the sign bit, as the IEEE-754 negate operation does.
pub fn fp_neg(x: u64) -> (r: u64)
    ensures
        r == neg_bits(x),
{
    x ^ SIGN_MASK
}

/// Whether the encoding denotes a NaN.
pub fn fp_is_nan(x: u64) -> (r: bool)
    ensures
        r == is_nan_bits(x),
{
    (x & FRAC_EXP_MASK) > INF_BITS
}

/// IEEE-754 `<` on encodings.
pub fn fp_lt(a: u64, b: u64) -> (r: bool)
    ensures
        r == lt_bits(a, b),
{
    let ma = a & FRAC_EXP_MASK;
    let mb = b & FRAC_EXP_MASK;
    if ma > INF_BITS || mb > INF_BITS {
        false
    } else {
        let na = a & SIGN_MASK == SIGN_MASK;
        let nb = b & SIGN_MASK == SIGN_MASK;
        if na && nb {
            ma > mb
        } else if na {
            !(ma == 0 && mb == 0)
        } else if nb {
            false
        } else {
            ma < mb
        }
    }
}

/// IEEE-754 `<=` on encodings.
pub fn fp_le(a: u64, b: u64) -> (r: bool)
    ensures
        r == le_bits(a, b),
{
    let ma = a & FRAC_EXP_MASK;
    let mb = b & FRAC_EXP_MASK;
    if ma > INF_BITS || mb > INF_BITS {
        false
    } else {
        let na = a & SIGN_MASK == SIGN_MASK;
        let nb = b & SIGN_MASK == SIGN_MASK;
        if na && nb {
            ma >= mb
        } else if na {
            true
        } else if nb {
            ma == 0 && mb == 0
        } else {
            ma <= mb
        }
    }
}

/// IEEE-754 `>` on encodings.
pub fn fp_gt(a: u64, b: u64) -> (r: bool)
    ensures
        r == gt_bits(a, b),
{
    fp_lt(b, a)
}

/// IEEE-754 `>=` on encodings.
pub fn fp_ge(a: u64, b: u64) -> (r: bool)
    ensures
        r == ge_bits(a, b),
{
    fp_le(b, a)
}

/// IEEE-754 `==` on encodings.
pub fn fp_eq(a: u64, b: u64) -> (r: bool)
    ensures
        r == eq_bits(a, b),
{
    let ma = a & FRAC_EXP_MASK;
    let mb = b & FRAC_EXP_MASK;
    if ma > INF_BITS || mb > INF_BITS {
        false
    } else {
        let na = a & SIGN_MASK == SIGN_MASK;
        let nb = b & SIGN_MASK == SIGN_MASK;
        ma == mb && (na == nb || ma == 0)
    }
}

/// The larger of two encodings, NaN operands ignored, as `f64::max`.
pub fn fp_max(a: u64, b: u64) -> (r: u64)
    ensures
        r == max_bits(a, b),
{
    if fp_is_nan(a) {
        b
    } else if fp_is_nan(b) {
        a
    } else if fp_lt(a, b) {
        b
    } else {
        a
    }
}

/// Relies on rustc_apfloat's `Float::add_r` on `ieee::Double`: binary64
/// addition rounded to nearest, ties to even, a function of the two
/// encodings alone.
#[verifier::external_body]
pub fn fp_add(a: u64, b: u64) -> (r: u64)
    ensures
        r == add_bits(a, b),
{
    let x = Double::from_bits(a as u128);
    let y = Double::from_bits(b as u128);
    x.add_r(y, Round::NearestTiesToEven).value.to_bits() as u64
}

/// Relies on rustc_apfloat's `Float::sub_r` on `ieee::Double`: binary64
/// subtraction rounded to nearest, ties to even, a function of the two
/// encodings alone.
#[verifier::external_body]
pub fn fp_sub(a: u64, b: u64) -> (r: u64)
    ensures
        r == sub_bits(a, b),
{
    let x = Double::from_bits(a as u128);
    let y = Double::from_bits(b as u128);
    x.sub_r(y, Round::NearestTiesToEven).value.to_bits() as u64
}

/// Relies on rustc_apfloat's `Float::mul_r` on `ieee::Double`: binary64
/// multiplication rounded to nearest, ties to even, a function of the two
/// encodings alone.
#[verifier::external_body]
pub fn fp_mul(a: u64, b: u64) -> (r: u64)
    ensures
        r == mul_bits(a, b),
{
    let x = Double::from_bits(a as u128);
    let y = Double::from_bits(b as u128);
    x.mul_r(y, Round::NearestTiesToEven).value.to_bits() as u64
}

/// Relies on rustc_apfloat's `Float::div_r` on `ieee::Double`: binary64
/// division rounded to nearest, ties to even, a function of the two
/// encodings alone.
#[verifier::external_body]
pub fn fp_div(a: u64, b: u64) -> (r: u64)
    ensures
        r == div_bits(a, b),
{
    let x = Double::from_bits(a as u128);
    let y = Double::from_bits(b as u128);
    x.div_r(y, Round::NearestTiesToEven).value.to_bits() as u64
}

} // verus!
