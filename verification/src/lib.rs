//! Conversions between the Kelvin, Celsius and Fahrenheit temperature scales
//! over IEEE-754 double-precision values.
//!
//! A temperature is a double-precision value, carried through this library as
//! its 64-bit pattern (`u64`). The verifier refuses floating-point types, so
//! the arithmetic is done in software, by the IEEE-754 binary64 operations of
//! `rustc_apfloat` on raw bit patterns — the backend for freestanding
//! environments, numerically identical to the platform's own floating point.
//! Each primitive operation (subtract, add, multiply, fused multiply-add)
//! stands behind a small trusted wrapper whose result is pinned by an
//! uninterpreted name; every conversion formula, and the propagation of NaN
//! and of the infinities, is verified against those contracts.
//!
//! Beside the conversions stands the exact model of the defining formulas, in
//! hundredths of a degree, in which the offset `273.15` is exact: it carries
//! the law that the Kelvin and Celsius formulas are inverses of each other.

use rustc_apfloat::ieee::Double;
use rustc_apfloat::Float;
use rustc_apfloat::Round;
use vstd::prelude::*;

verus! {

// ------------------------------------------------------------------
// Bit patterns of double-precision values
// ------------------------------------------------------------------

/// Bit pattern of positive infinity: all-ones exponent, zero fraction,
/// clear sign bit. Every pattern whose magnitude exceeds it is a NaN;
/// every pattern whose magnitude is below it encodes a finite value.
pub const BITS_POS_INFINITY: u64 = 0x7FF0_0000_0000_0000;

/// Bit pattern of negative infinity.
pub const BITS_NEG_INFINITY: u64 = 0xFFF0_0000_0000_0000;

/// Bit pattern of `273.15`, the offset between the Kelvin and Celsius scales.
pub const BITS_273_15: u64 = 0x4071_1266_6666_6666;

/// Bit pattern of `32`, the offset of the Fahrenheit scale.
pub const BITS_32: u64 = 0x4040_0000_0000_0000;

/// Bit pattern of `9/5` (the double nearest it), the Celsius-to-Fahrenheit
/// scale factor.
pub const BITS_NINE_FIFTHS: u64 = 0x3FFC_CCCC_CCCC_CCCD;

/// Bit pattern of `5/9` (the double nearest it), the Fahrenheit-to-Celsius
/// scale factor.
pub const BITS_FIVE_NINTHS: u64 = 0x3FE1_C71C_71C7_1C72;

/// The pattern with its sign bit cleared: the magnitude of the encoded value.
pub open spec fn magnitude_bits(bits: u64) -> u64 {
    bits % 0x8000_0000_0000_0000
}

/// The eleven exponent bits of the pattern.
pub open spec fn exponent_field(bits: u64) -> u64 {
    (bits >> 52) & 0x7FF
}

/// The fifty-two fraction bits of the pattern.
pub open spec fn fraction_field(bits: u64) -> u64 {
    bits & 0x000F_FFFF_FFFF_FFFF
}

/// The pattern encodes a NaN: a magnitude strictly above that of infinity.
pub open spec fn is_nan_bits(bits: u64) -> bool {
    magnitude_bits(bits) > BITS_POS_INFINITY
}

/// The pattern encodes positive or negative infinity.
pub open spec fn is_infinity_bits(bits: u64) -> bool {
    magnitude_bits(bits) == BITS_POS_INFINITY
}

/// The pattern encodes a finite value (zero, subnormal or normal).
pub open spec fn is_finite_bits(bits: u64) -> bool {
    magnitude_bits(bits) < BITS_POS_INFINITY
}

/// The pattern encodes a strictly positive finite value.
pub open spec fn is_pos_finite_bits(bits: u64) -> bool {
    0 < bits < BITS_POS_INFINITY
}

/// The pattern encodes positive infinity.
pub open spec fn is_pos_infinity_bits(bits: u64) -> bool {
    bits == BITS_POS_INFINITY
}

/// The pattern encodes negative infinity.
pub open spec fn is_neg_infinity_bits(bits: u64) -> bool {
    bits == BITS_NEG_INFINITY
}

// ------------------------------------------------------------------
// Laws of the classification
// ------------------------------------------------------------------

/// Law: every pattern is exactly one of NaN, infinite, finite.
pub proof fn lemma_classification_trichotomy(bits: u64)
    ensures
        is_nan_bits(bits) || is_infinity_bits(bits) || is_finite_bits(bits),
        is_nan_bits(bits) ==> !is_infinity_bits(bits) && !is_finite_bits(bits),
        is_infinity_bits(bits) ==> !is_nan_bits(bits) && !is_finite_bits(bits),
        is_finite_bits(bits) ==> !is_nan_bits(bits) && !is_infinity_bits(bits),
{
}

/// Law: a pattern is infinite exactly when it is one of the two infinities.
pub proof fn lemma_infinity_is_signed(bits: u64)
    ensures
        is_infinity_bits(bits) <==> is_pos_infinity_bits(bits) || is_neg_infinity_bits(bits),
{
    assert(bits % 0x8000_0000_0000_0000 == 0x7FF0_0000_0000_0000 <==> (bits
        == 0x7FF0_0000_0000_0000 || bits == 0xFFF0_0000_0000_0000)) by (bit_vector);
}

/// Law: the magnitude comparison that defines a NaN agrees with the field
/// description of the format: all-ones exponent and a non-zero fraction.
pub proof fn lemma_nan_field_characterization(bits: u64)
    ensures
        is_nan_bits(bits) <==> (exponent_field(bits) == 0x7FF && fraction_field(bits) != 0),
{
    assert(bits % 0x8000_0000_0000_0000 > 0x7FF0_0000_0000_0000 <==> ((bits >> 52) & 0x7FF
        == 0x7FF && bits & 0x000F_FFFF_FFFF_FFFF != 0)) by (bit_vector);
}

/// Law: the magnitude comparison that defines a finite value agrees with the
/// field description of the format: an exponent that is not all ones.
pub proof fn lemma_finite_field_characterization(bits: u64)
    ensures
        is_finite_bits(bits) <==> exponent_field(bits) != 0x7FF,
{
    assert(bits % 0x8000_0000_0000_0000 < 0x7FF0_0000_0000_0000 <==> (bits >> 52) & 0x7FF
        != 0x7FF) by (bit_vector);
}

// ------------------------------------------------------------------
// Executable classification
// ------------------------------------------------------------------

/// Whether the pattern encodes a NaN.
#[must_use]
pub fn is_nan(bits: u64) -> (r: bool)
    ensures
        r == is_nan_bits(bits),
{
    bits % 0x8000_0000_0000_0000 > BITS_POS_INFINITY
}

/// Whether the pattern encodes positive or negative infinity.
#[must_use]
pub fn is_infinity(bits: u64) -> (r: bool)
    ensures
        r == is_infinity_bits(bits),
{
    bits % 0x8000_0000_0000_0000 == BITS_POS_INFINITY
}

/// Whether the pattern encodes a finite value.
#[must_use]
pub fn is_finite(bits: u64) -> (r: bool)
    ensures
        r == is_finite_bits(bits),
{
    bits % 0x8000_0000_0000_0000 < BITS_POS_INFINITY
}

/// Whether the pattern encodes positive infinity.
#[must_use]
pub fn is_pos_infinity(bits: u64) -> (r: bool)
    ensures
        r == is_pos_infinity_bits(bits),
{
    bits == BITS_POS_INFINITY
}

/// Whether the pattern encodes negative infinity.
#[must_use]
pub fn is_neg_infinity(bits: u64) -> (r: bool)
    ensures
        r == is_neg_infinity_bits(bits),
{
    bits == BITS_NEG_INFINITY
}

// ------------------------------------------------------------------
// The trusted arithmetic: IEEE-754 binary64 operations in software
// ------------------------------------------------------------------

/// The IEEE-754 binary64 difference of the two encoded values, rounded to
/// nearest, ties to even.
pub uninterp spec fn sub_bits(a: u64, b: u64) -> u64;

/// The IEEE-754 binary64 sum of the two encoded values, rounded to nearest,
/// ties to even.
pub uninterp spec fn add_bits(a: u64, b: u64) -> u64;

/// The IEEE-754 binary64 product of the two encoded values, rounded to
/// nearest, ties to even.
pub uninterp spec fn mul_bits(a: u64, b: u64) -> u64;

/// The IEEE-754 binary64 fused multiply-add of the three encoded values:
/// `a * b + c` with a single rounding to nearest, ties to even.
pub uninterp spec fn fma_bits(a: u64, b: u64, c: u64) -> u64;

/// Relies on `rustc_apfloat::ieee::Double::sub_r`: IEEE-754 binary64
/// subtraction, rounded to nearest with ties to even, computed in software,
/// so the result depends on the operand bits alone. A NaN operand yields a
/// NaN; a non-NaN minuend and a finite subtrahend never yield a NaN; an
/// infinite minuend passes through with its sign.
#[verifier::external_body]
fn sub_double(a: u64, b: u64) -> (r: u64)
    ensures
        r == sub_bits(a, b),
        is_nan_bits(a) || is_nan_bits(b) ==> is_nan_bits(r),
        !is_nan_bits(a) && is_finite_bits(b) ==> !is_nan_bits(r),
        is_pos_infinity_bits(a) && is_finite_bits(b) ==> is_pos_infinity_bits(r),
        is_neg_infinity_bits(a) && is_finite_bits(b) ==> is_neg_infinity_bits(r),
{
    let x = Double::from_bits(a as u128);
    let y = Double::from_bits(b as u128);
    x.sub_r(y, Round::NearestTiesToEven).value.to_bits() as u64
}

/// Relies on `rustc_apfloat::ieee::Double::add_r`: IEEE-754 binary64
/// addition, rounded to nearest with ties to even, computed in software, so
/// the result depends on the operand bits alone. A NaN operand yields a NaN;
/// a non-NaN operand plus a finite one never yields a NaN; an infinite first
/// operand passes through with its sign.
#[verifier::external_body]
fn add_double(a: u64, b: u64) -> (r: u64)
    ensures
        r == add_bits(a, b),
        is_nan_bits(a) || is_nan_bits(b) ==> is_nan_bits(r),
        !is_nan_bits(a) && is_finite_bits(b) ==> !is_nan_bits(r),
        is_pos_infinity_bits(a) && is_finite_bits(b) ==> is_pos_infinity_bits(r),
        is_neg_infinity_bits(a) && is_finite_bits(b) ==> is_neg_infinity_bits(r),
{
    let x = Double::from_bits(a as u128);
    let y = Double::from_bits(b as u128);
    x.add_r(y, Round::NearestTiesToEven).value.to_bits() as u64
}

/// Relies on `rustc_apfloat::ieee::Double::mul_r`: IEEE-754 binary64
/// multiplication, rounded to nearest with ties to even, computed in
/// software, so the result depends on the operand bits alone. A NaN operand
/// yields a NaN; a non-NaN value times a positive finite one never yields a
/// NaN, and an infinite one keeps its sign.
#[verifier::external_body]
fn mul_double(a: u64, b: u64) -> (r: u64)
    ensures
        r == mul_bits(a, b),
        is_nan_bits(a) || is_nan_bits(b) ==> is_nan_bits(r),
        !is_nan_bits(a) && is_pos_finite_bits(b) ==> !is_nan_bits(r),
        is_pos_infinity_bits(a) && is_pos_finite_bits(b) ==> is_pos_infinity_bits(r),
        is_neg_infinity_bits(a) && is_pos_finite_bits(b) ==> is_neg_infinity_bits(r),
{
    let x = Double::from_bits(a as u128);
    let y = Double::from_bits(b as u128);
    x.mul_r(y, Round::NearestTiesToEven).value.to_bits() as u64
}

/// Relies on `rustc_apfloat::ieee::Double::mul_add_r`: IEEE-754 binary64
/// fused multiply-add — `a * b + c` with a single rounding to nearest, ties
/// to even — computed in software, so the result depends on the operand bits
/// alone. A NaN operand yields a NaN; a non-NaN value times a positive
/// finite factor plus a finite addend never yields a NaN, and an infinite
/// one keeps its sign.
#[verifier::external_body]
fn fma_double(a: u64, b: u64, c: u64) -> (r: u64)
    ensures
        r == fma_bits(a, b, c),
        is_nan_bits(a) || is_nan_bits(b) || is_nan_bits(c) ==> is_nan_bits(r),
        !is_nan_bits(a) && is_pos_finite_bits(b) && is_finite_bits(c) ==> !is_nan_bits(r),
        is_pos_infinity_bits(a) && is_pos_finite_bits(b) && is_finite_bits(c)
            ==> is_pos_infinity_bits(r),
        is_neg_infinity_bits(a) && is_pos_finite_bits(b) && is_finite_bits(c)
            ==> is_neg_infinity_bits(r),
{
    let x = Double::from_bits(a as u128);
    let y = Double::from_bits(b as u128);
    let z = Double::from_bits(c as u128);
    x.mul_add_r(y, z, Round::NearestTiesToEven).value.to_bits() as u64
}

// ------------------------------------------------------------------
// The six conversions
// ------------------------------------------------------------------

/// Kelvin to Celsius: `value - 273.15`. A NaN converts to a NaN, an infinity
/// to the infinity of the same sign.
#[must_use]
pub fn kelvin_to_celsius(value: u64) -> (r: u64)
    ensures
        r == sub_bits(value, BITS_273_15),
        is_nan_bits(value) ==> is_nan_bits(r),
        !is_nan_bits(value) ==> !is_nan_bits(r),
        is_pos_infinity_bits(value) ==> is_pos_infinity_bits(r),
        is_neg_infinity_bits(value) ==> is_neg_infinity_bits(r),
{
    sub_double(value, BITS_273_15)
}

/// Celsius to Kelvin: `value + 273.15`. A NaN converts to a NaN, an infinity
/// to the infinity of the same sign.
#[must_use]
pub fn celsius_to_kelvin(value: u64) -> (r: u64)
    ensures
        r == add_bits(value, BITS_273_15),
        is_nan_bits(value) ==> is_nan_bits(r),
        !is_nan_bits(value) ==> !is_nan_bits(r),
        is_pos_infinity_bits(value) ==> is_pos_infinity_bits(r),
        is_neg_infinity_bits(value) ==> is_neg_infinity_bits(r),
{
    add_double(value, BITS_273_15)
}

/// Celsius to Fahrenheit: `value * 9/5 + 32` with the multiply and add fused
/// into a single rounding step. A NaN converts to a NaN, an infinity to the
/// infinity of the same sign.
#[must_use]
pub fn celsius_to_fahrenheit(value: u64) -> (r: u64)
    ensures
        r == fma_bits(value, BITS_NINE_FIFTHS, BITS_32),
        is_nan_bits(value) ==> is_nan_bits(r),
        !is_nan_bits(value) ==> !is_nan_bits(r),
        is_pos_infinity_bits(value) ==> is_pos_infinity_bits(r),
        is_neg_infinity_bits(value) ==> is_neg_infinity_bits(r),
{
    fma_double(value, BITS_NINE_FIFTHS, BITS_32)
}

/// Fahrenheit to Celsius: `(value - 32) * 5/9`, deliberately without a fused
/// operation — the formula has no additive third term, and fusing the
/// subtraction would change the result's last bits. A NaN converts to a NaN,
/// an infinity to the infinity of the same sign.
#[must_use]
pub fn fahrenheit_to_celsius(value: u64) -> (r: u64)
    ensures
        r == mul_bits(sub_bits(value, BITS_32), BITS_FIVE_NINTHS),
        is_nan_bits(value) ==> is_nan_bits(r),
        !is_nan_bits(value) ==> !is_nan_bits(r),
        is_pos_infinity_bits(value) ==> is_pos_infinity_bits(r),
        is_neg_infinity_bits(value) ==> is_neg_infinity_bits(r),
{
    let shifted = sub_double(value, BITS_32);
    mul_double(shifted, BITS_FIVE_NINTHS)
}

/// Kelvin to Fahrenheit: `(value - 273.15) * 9/5 + 32`, the Kelvin-to-Celsius
/// subtraction composed with the fused multiply-add of the Celsius-to-
/// Fahrenheit step. A NaN converts to a NaN, an infinity to the infinity of
/// the same sign.
#[must_use]
pub fn kelvin_to_fahrenheit(value: u64) -> (r: u64)
    ensures
        r == fma_bits(sub_bits(value, BITS_273_15), BITS_NINE_FIFTHS, BITS_32),
        is_nan_bits(value) ==> is_nan_bits(r),
        !is_nan_bits(value) ==> !is_nan_bits(r),
        is_pos_infinity_bits(value) ==> is_pos_infinity_bits(r),
        is_neg_infinity_bits(value) ==> is_neg_infinity_bits(r),
{
    let shifted = sub_double(value, BITS_273_15);
    fma_double(shifted, BITS_NINE_FIFTHS, BITS_32)
}

/// Fahrenheit to Kelvin: `(value - 32) * 5/9 + 273.15`, the Fahrenheit-to-
/// Celsius subtraction composed with a fused multiply-add that produces
/// Kelvin directly. A NaN converts to a NaN, an infinity to the infinity of
/// the same sign.
#[must_use]
pub fn fahrenheit_to_kelvin(value: u64) -> (r: u64)
    ensures
        r == fma_bits(sub_bits(value, BITS_32), BITS_FIVE_NINTHS, BITS_273_15),
        is_nan_bits(value) ==> is_nan_bits(r),
        !is_nan_bits(value) ==> !is_nan_bits(r),
        is_pos_infinity_bits(value) ==> is_pos_infinity_bits(r),
        is_neg_infinity_bits(value) ==> is_neg_infinity_bits(r),
{
    let shifted = sub_double(value, BITS_32);
    fma_double(shifted, BITS_FIVE_NINTHS, BITS_273_15)
}

// ------------------------------------------------------------------
// The defining formulas over exact arithmetic
// ------------------------------------------------------------------

/// The offset between the Kelvin and Celsius scales, `273.15` degrees,
/// in hundredths of a degree, in which it is exact.
pub const CENTI_KELVIN_OFFSET: i64 = 27315;

/// The defining formula of the Kelvin-to-Celsius conversion,
/// `value - 273.15`, over exact arithmetic in hundredths of a degree.
pub open spec fn kelvin_to_celsius_exact(centi: int) -> int {
    centi - 27315
}

/// The defining formula of the Celsius-to-Kelvin conversion,
/// `value + 273.15`, over exact arithmetic in hundredths of a degree.
pub open spec fn celsius_to_kelvin_exact(centi: int) -> int {
    centi + 27315
}

/// Law: the defining formulas of the Kelvin-to-Celsius and Celsius-to-Kelvin
/// conversions, `value - 273.15` and `value + 273.15`, are exact inverses of
/// each other over exact arithmetic, in both orders of composition.
pub proof fn lemma_kelvin_celsius_formulas_inverse(centi: int)
    ensures
        celsius_to_kelvin_exact(kelvin_to_celsius_exact(centi)) == centi,
        kelvin_to_celsius_exact(celsius_to_kelvin_exact(centi)) == centi,
{
}

/// The Kelvin-to-Celsius formula over exact arithmetic in hundredths of a
/// degree: subtracts the exactly represented offset `273.15`.
#[must_use]
pub fn kelvin_to_celsius_centi(centi: i64) -> (r: i64)
    requires
        centi - 27315 >= i64::MIN,
    ensures
        r == kelvin_to_celsius_exact(centi as int),
{
    centi - CENTI_KELVIN_OFFSET
}

/// The Celsius-to-Kelvin formula over exact arithmetic in hundredths of a
/// degree: adds the exactly represented offset `273.15`.
#[must_use]
pub fn celsius_to_kelvin_centi(centi: i64) -> (r: i64)
    requires
        centi + 27315 <= i64::MAX,
    ensures
        r == celsius_to_kelvin_exact(centi as int),
{
    centi + CENTI_KELVIN_OFFSET
}

} // verus!
