use vstd::prelude::*;

verus! {

/// Bit pattern of the scalar `+0.0`, the additive identity of every lane.
pub const POS_ZERO_BITS: u32 = 0x0000_0000;

/// Bit pattern of the scalar `-0.0`; it compares equal to zero.
pub const NEG_ZERO_BITS: u32 = 0x8000_0000;

/// Bit pattern of the scalar `1.0`.
pub const ONE_BITS: u32 = 0x3F80_0000;

/// The IEEE-754 binary32 sum of the scalars held as bit patterns `a` and `b`,
/// rounded to nearest, ties to even.
pub uninterp spec fn add_s(a: u32, b: u32) -> u32;

/// The IEEE-754 binary32 difference of the scalars held as bit patterns
/// `a` and `b`, rounded to nearest, ties to even.
pub uninterp spec fn sub_s(a: u32, b: u32) -> u32;

/// The IEEE-754 binary32 product of the scalars held as bit patterns
/// `a` and `b`, rounded to nearest, ties to even.
pub uninterp spec fn mul_s(a: u32, b: u32) -> u32;

/// The IEEE-754 binary32 square root of the scalar held as bit pattern `a`,
/// rounded to nearest, ties to even.
pub uninterp spec fn sqrt_s(a: u32) -> u32;

/// True exactly of the bit patterns whose scalar compares equal to zero:
/// the two zeros, one of either sign.
pub open spec fn is_zero_bits(b: u32) -> bool {
    b == POS_ZERO_BITS || b == NEG_ZERO_BITS
}

/// Reports whether the scalar held as the bit pattern `b` compares equal to
/// zero.
pub fn scalar_is_zero(b: u32) -> (r: bool)
    ensures
        r == is_zero_bits(b),
{
    b == POS_ZERO_BITS || b == NEG_ZERO_BITS
}

/// Relies on `rustc_apfloat::ieee::Single::add_r`: IEEE-754 binary32
/// addition of the scalars whose bit patterns are `a` and `b`, rounded to
/// nearest with ties to even, a function of the two bit patterns alone.
#[verifier::external_body]
pub(crate) fn add_bits(a: u32, b: u32) -> (r: u32)
    ensures
        r == add_s(a, b),
{
    let x = <rustc_apfloat::ieee::Single as rustc_apfloat::Float>::from_bits(a as u128);
    let y = <rustc_apfloat::ieee::Single as rustc_apfloat::Float>::from_bits(b as u128);
    let s = rustc_apfloat::Float::add_r(x, y, rustc_apfloat::Round::NearestTiesToEven);
    rustc_apfloat::Float::to_bits(s.value) as u32
}

/// Relies on `rustc_apfloat::ieee::Single::sub_r`: IEEE-754 binary32
/// subtraction of the scalars whose bit patterns are `a` and `b`, rounded to
/// nearest with ties to even, a function of the two bit patterns alone.
#[verifier::external_body]
pub(crate) fn sub_bits(a: u32, b: u32) -> (r: u32)
    ensures
        r == sub_s(a, b),
{
    let x = <rustc_apfloat::ieee::Single as rustc_apfloat::Float>::from_bits(a as u128);
    let y = <rustc_apfloat::ieee::Single as rustc_apfloat::Float>::from_bits(b as u128);
    let s = rustc_apfloat::Float::sub_r(x, y, rustc_apfloat::Round::NearestTiesToEven);
    rustc_apfloat::Float::to_bits(s.value) as u32
}

/// Relies on `rustc_apfloat::ieee::Single::mul_r`: IEEE-754 binary32
/// multiplication of the scalars whose bit patterns are `a` and `b`, rounded
/// to nearest with ties to even, a function of the two bit patterns alone.
#[verifier::external_body]
pub(crate) fn mul_bits(a: u32, b: u32) -> (r: u32)
    ensures
        r == mul_s(a, b),
{
    let x = <rustc_apfloat::ieee::Single as rustc_apfloat::Float>::from_bits(a as u128);
    let y = <rustc_apfloat::ieee::Single as rustc_apfloat::Float>::from_bits(b as u128);
    let s = rustc_apfloat::Float::mul_r(x, y, rustc_apfloat::Round::NearestTiesToEven);
    rustc_apfloat::Float::to_bits(s.value) as u32
}

/// Relies on `ieee_apsqrt::sqrt_accurate`: the correctly rounded IEEE-754
/// binary32 square root of the scalar whose bit pattern is `a`, rounded to
/// nearest with ties to even, a function of the bit pattern alone.
#[verifier::external_body]
pub(crate) fn sqrt_bits(a: u32) -> (r: u32)
    ensures
        r == sqrt_s(a),
{
    let s = ieee_apsqrt::sqrt_accurate(a, rustc_apfloat::Round::NearestTiesToEven);
    s.0.value
}

} // verus!
