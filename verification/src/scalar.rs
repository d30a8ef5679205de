//! The scalar layer: complex numbers from `num_complex`, held opaque.
//!
//! Every arithmetic step of the simulator is a call into `num_complex` (or a
//! float method of std) on `Complex64` values. Verus cannot reason about the
//! floating-point content of those values, so each operation is wrapped once,
//! and its result is given a name: an uninterpreted spec function of the
//! arguments alone. All contracts of the library speak of the values through
//! these names, which pins every computed value down to the exact tree of
//! scalar operations that produced it.

use vstd::prelude::*;
use num_complex::Complex64;

verus! {

#[verifier::external_type_specification]
#[verifier::external_body]
#[verifier::reject_recursive_types(T)]
pub struct ExComplex<T>(num_complex::Complex<T>);

/// The complex number that `num_complex::c64(re, im)` builds from two
/// unsigned integers: `re + i*im`, each part converted exactly to a float.
pub uninterp spec fn c64_of(re: u32, im: u32) -> Complex64;

/// The sum that `Complex<f64>`'s `Add` returns.
pub uninterp spec fn add_of(a: Complex64, b: Complex64) -> Complex64;

/// The difference that `Complex<f64>`'s `Sub` returns.
pub uninterp spec fn sub_of(a: Complex64, b: Complex64) -> Complex64;

/// The product that `Complex<f64>`'s `Mul` returns.
pub uninterp spec fn mul_of(a: Complex64, b: Complex64) -> Complex64;

/// The negation that `Complex<f64>`'s `Neg` returns.
pub uninterp spec fn neg_of(a: Complex64) -> Complex64;

/// The conjugate that `Complex::conj` returns.
pub uninterp spec fn conj_of(a: Complex64) -> Complex64;

/// What `Complex::scale` returns: both parts multiplied by the real part
/// of the (real-valued) factor `t`.
pub uninterp spec fn scale_of(a: Complex64, t: Complex64) -> Complex64;

/// What `Complex::unscale` returns: both parts divided by the real part
/// of the (real-valued) divisor `t`.
pub uninterp spec fn unscale_of(a: Complex64, t: Complex64) -> Complex64;

/// What `Complex::norm_sqr` returns (`re*re + im*im`), as a real-valued
/// complex number.
pub uninterp spec fn norm_sqr_of(a: Complex64) -> Complex64;

/// What `Complex::norm` returns (the modulus, computed with the float
/// `hypot`), as a real-valued complex number. The precision of `hypot` is
/// platform-defined; on any one platform the result is a fixed function of
/// the argument, which is all the contracts relate.
pub uninterp spec fn norm_of(a: Complex64) -> Complex64;

/// What `f64::sqrt` returns on the real part, as a real-valued complex
/// number.
pub uninterp spec fn sqrt_re_of(a: Complex64) -> Complex64;

/// What `f64::cos` returns on the real part, as a real-valued complex
/// number. The precision of the float cosine is platform-defined; on any
/// one platform the result is a fixed function of the argument, which is
/// all the contracts relate.
pub uninterp spec fn cos_re_of(a: Complex64) -> Complex64;

/// What `f64::abs` returns on the real part, as a real-valued complex
/// number.
pub uninterp spec fn abs_re_of(a: Complex64) -> Complex64;

/// The real part of `a`, re-embedded as a real-valued complex number.
pub uninterp spec fn re_of(a: Complex64) -> Complex64;

/// The imaginary part of `a`, re-embedded as a real-valued complex number.
pub uninterp spec fn im_of(a: Complex64) -> Complex64;

/// What `f64::ceil` on the real part, cast `as usize`, returns.
pub uninterp spec fn ceil_usize_of(a: Complex64) -> usize;

/// Whether `<` holds of the two real parts, as `f64`'s `PartialOrd` decides it.
pub uninterp spec fn lt_re_of(a: Complex64, b: Complex64) -> bool;

/// Whether `<=` holds of the two real parts, as `f64`'s `PartialOrd` decides
/// it.
pub uninterp spec fn le_re_of(a: Complex64, b: Complex64) -> bool;

/// `n` times the float constant pi; the trusted wrapper names only
/// `pi_times(1)`, the constant itself.
pub uninterp spec fn pi_times(n: u32) -> Complex64;

/// Relies on `num_complex::c64`: builds `re + i*im`, converting each
/// `u32` exactly into a float.
#[verifier::external_body]
pub(crate) fn c_u32(re: u32, im: u32) -> (r: Complex64)
    ensures
        r == c64_of(re, im),
{
    num_complex::c64(re, im)
}

/// Relies on the `Add` impl of `num_complex::Complex`.
#[verifier::external_body]
pub(crate) fn c_add(a: Complex64, b: Complex64) -> (r: Complex64)
    ensures
        r == add_of(a, b),
{
    a + b
}

/// Relies on the `Sub` impl of `num_complex::Complex`.
#[verifier::external_body]
pub(crate) fn c_sub(a: Complex64, b: Complex64) -> (r: Complex64)
    ensures
        r == sub_of(a, b),
{
    a - b
}

/// Relies on the `Mul` impl of `num_complex::Complex`.
#[verifier::external_body]
pub(crate) fn c_mul(a: Complex64, b: Complex64) -> (r: Complex64)
    ensures
        r == mul_of(a, b),
{
    a * b
}

/// Relies on the `Neg` impl of `num_complex::Complex`.
#[verifier::external_body]
pub(crate) fn c_neg(a: Complex64) -> (r: Complex64)
    ensures
        r == neg_of(a),
{
    -a
}

/// Relies on `Complex::conj`.
#[verifier::external_body]
pub(crate) fn c_conj(a: Complex64) -> (r: Complex64)
    ensures
        r == conj_of(a),
{
    a.conj()
}

/// Relies on `Complex::scale`: multiplication by the real scalar `t.re`.
#[verifier::external_body]
pub(crate) fn c_scale(a: Complex64, t: Complex64) -> (r: Complex64)
    ensures
        r == scale_of(a, t),
{
    a.scale(t.re)
}

/// Relies on `Complex::unscale`: division by the real scalar `t.re`.
#[verifier::external_body]
pub(crate) fn c_unscale(a: Complex64, t: Complex64) -> (r: Complex64)
    ensures
        r == unscale_of(a, t),
{
    a.unscale(t.re)
}

/// Relies on `Complex::norm_sqr`, re-embedded as a real-valued complex.
#[verifier::external_body]
pub(crate) fn c_norm_sqr(a: Complex64) -> (r: Complex64)
    ensures
        r == norm_sqr_of(a),
{
    Complex64::new(a.norm_sqr(), 0u32.into())
}

/// Relies on `Complex::norm`, re-embedded as a real-valued complex.
#[verifier::external_body]
pub(crate) fn c_norm(a: Complex64) -> (r: Complex64)
    ensures
        r == norm_of(a),
{
    Complex64::new(a.norm(), 0u32.into())
}

/// Relies on `f64::sqrt`, applied to the real part.
#[verifier::external_body]
pub(crate) fn c_sqrt_re(a: Complex64) -> (r: Complex64)
    ensures
        r == sqrt_re_of(a),
{
    Complex64::new(a.re.sqrt(), 0u32.into())
}

/// Relies on `f64::cos`, applied to the real part.
#[verifier::external_body]
pub(crate) fn c_cos_re(a: Complex64) -> (r: Complex64)
    ensures
        r == cos_re_of(a),
{
    Complex64::new(a.re.cos(), 0u32.into())
}

/// Relies on `f64::abs`, applied to the real part.
#[verifier::external_body]
pub(crate) fn c_abs_re(a: Complex64) -> (r: Complex64)
    ensures
        r == abs_re_of(a),
{
    Complex64::new(a.re.abs(), 0u32.into())
}

/// Relies on `Complex::new`: the real part of `a` with a zero imaginary part.
#[verifier::external_body]
pub(crate) fn c_re(a: Complex64) -> (r: Complex64)
    ensures
        r == re_of(a),
{
    Complex64::new(a.re, 0u32.into())
}

/// Relies on `Complex::new`: the imaginary part of `a` as a real-valued
/// complex number.
#[verifier::external_body]
pub(crate) fn c_im(a: Complex64) -> (r: Complex64)
    ensures
        r == im_of(a),
{
    Complex64::new(a.im, 0u32.into())
}

/// Relies on `f64::ceil` and the saturating float-to-integer cast.
#[verifier::external_body]
pub(crate) fn c_ceil_usize(a: Complex64) -> (r: usize)
    ensures
        r == ceil_usize_of(a),
{
    a.re.ceil() as usize
}

/// Relies on `f64`'s `PartialOrd`, applied to the two real parts.
#[verifier::external_body]
pub(crate) fn c_lt(a: Complex64, b: Complex64) -> (r: bool)
    ensures
        r == lt_re_of(a, b),
{
    a.re < b.re
}

/// Relies on `f64`'s `PartialOrd`, applied to the two real parts.
#[verifier::external_body]
pub(crate) fn c_le(a: Complex64, b: Complex64) -> (r: bool)
    ensures
        r == le_re_of(a, b),
{
    a.re <= b.re
}

/// Relies on `num_traits::FloatConst::PI` for `f64`.
#[verifier::external_body]
pub(crate) fn c_pi() -> (r: Complex64)
    ensures
        r == pi_times(1),
{
    Complex64::new(num_traits::FloatConst::PI(), 0u32.into())
}

/// Relies on `Complex::new`: a real part taken from `a`, an imaginary part
/// taken from `b`. Nothing more is stated: the one caller hands it freshly
/// drawn random numbers.
#[verifier::external_body]
pub(crate) fn c_parts(a: Complex64, b: Complex64) -> Complex64 {
    Complex64::new(a.re, b.re)
}

/// Relies on `rand::random`: a float drawn from the unit interval, re-embedded
/// as a real-valued complex number. Nothing is promised of the draw.
#[verifier::external_body]
pub(crate) fn random_real() -> Complex64 {
    Complex64::new(rand::random(), 0u32.into())
}

} // verus!
