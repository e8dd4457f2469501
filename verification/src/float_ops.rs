//! Scalar sample arithmetic.
//!
//! Samples and spectral quantities are carried everywhere as the IEEE-754 bit
//! patterns of single-precision values. All buffer bookkeeping is therefore
//! exact, while each scalar operation is delegated to a trusted
//! single-operation wrapper whose result is named by an uninterpreted spec
//! function. Inside the wrappers the operands are rebuilt from their bit
//! patterns with `bytemuck::cast`; where the operand type is not fixed by the
//! callee, a bit-identical `libm::copysignf(x, x)` anchors it.

use vstd::prelude::*;

verus! {

pub uninterp spec fn f32_add(a: u32, b: u32) -> u32;

pub uninterp spec fn f32_mul(a: u32, b: u32) -> u32;

pub uninterp spec fn f32_div(a: u32, b: u32) -> u32;

pub uninterp spec fn f32_cos(a: u32) -> u32;

pub uninterp spec fn f32_sin(a: u32) -> u32;

pub uninterp spec fn f32_hypot(a: u32, b: u32) -> u32;

pub uninterp spec fn f32_atan2(y: u32, x: u32) -> u32;

/// Relies on IEEE-754 single-precision addition (`core::ops::Add`): the sum
/// of the two carried values, as bits.
#[verifier::external_body]
pub(crate) fn add_bits(a: u32, b: u32) -> (r: u32)
    ensures
        r == f32_add(a, b),
{
    let x = libm::copysignf(bytemuck::cast(a), bytemuck::cast(a));
    let y = libm::copysignf(bytemuck::cast(b), bytemuck::cast(b));
    bytemuck::cast(x + y)
}

/// Relies on IEEE-754 single-precision multiplication (`core::ops::Mul`).
#[verifier::external_body]
pub(crate) fn mul_bits(a: u32, b: u32) -> (r: u32)
    ensures
        r == f32_mul(a, b),
{
    let x = libm::copysignf(bytemuck::cast(a), bytemuck::cast(a));
    let y = libm::copysignf(bytemuck::cast(b), bytemuck::cast(b));
    bytemuck::cast(x * y)
}

/// Relies on IEEE-754 single-precision division (`core::ops::Div`); division
/// by zero yields an infinity or NaN, never a panic.
#[verifier::external_body]
pub(crate) fn div_bits(a: u32, b: u32) -> (r: u32)
    ensures
        r == f32_div(a, b),
{
    let x = libm::copysignf(bytemuck::cast(a), bytemuck::cast(a));
    let y = libm::copysignf(bytemuck::cast(b), bytemuck::cast(b));
    bytemuck::cast(x / y)
}

/// Relies on `libm::cosf`, a deterministic software cosine.
#[verifier::external_body]
pub(crate) fn cos_bits(a: u32) -> (r: u32)
    ensures
        r == f32_cos(a),
{
    bytemuck::cast(libm::cosf(bytemuck::cast(a)))
}

/// Relies on `libm::sinf`, a deterministic software sine.
#[verifier::external_body]
pub(crate) fn sin_bits(a: u32) -> (r: u32)
    ensures
        r == f32_sin(a),
{
    bytemuck::cast(libm::sinf(bytemuck::cast(a)))
}

/// Relies on `libm::hypotf`, a deterministic software Euclidean norm: the
/// modulus of the complex value whose parts are carried in `a` and `b`.
#[verifier::external_body]
pub(crate) fn hypot_bits(a: u32, b: u32) -> (r: u32)
    ensures
        r == f32_hypot(a, b),
{
    bytemuck::cast(libm::hypotf(bytemuck::cast(a), bytemuck::cast(b)))
}

/// Relies on `libm::atan2f`, a deterministic software four-quadrant
/// arctangent: the argument of the complex value `x + i y`.
#[verifier::external_body]
pub(crate) fn atan2_bits(y: u32, x: u32) -> (r: u32)
    ensures
        r == f32_atan2(y, x),
{
    bytemuck::cast(libm::atan2f(bytemuck::cast(y), bytemuck::cast(x)))
}

} // verus!
