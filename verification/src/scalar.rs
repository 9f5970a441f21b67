//! The scalar operations that the library takes from `num_traits::Float`.
//!
//! Each function here is a trusted wrapper around one method of the outside
//! crate: Verus believes its contract without reading its body.
//!
//! The transcendental functions return a value that depends on their
//! arguments alone, but the scalar type is a type parameter here, and the
//! result has no name over it: their contracts leave the result unconstrained.
//! The callers tie each result to the argument it came from through
//! `call_ensures` (see `dual::is_sin_of` and its neighbours).
use num_traits::Float;
use std::ops::{Add, Mul};
use vstd::prelude::*;
use vstd::std_specs::ops::{AddSpec, MulSpec};
use crate::model::{is_additive_identity, is_multiplicative_identity};

verus! {

/// `num_traits::Zero::zero` (through `Float`): the additive identity of `T`,
/// as the trait documents it (`a + 0 = a`, `0 + a = a`).
#[verifier::external_body]
pub(crate) fn zero_of<T: Float + Add<Output = T>>() -> (r: T)
    ensures
        T::obeys_add_spec() ==> is_additive_identity(r),
{
    T::zero()
}

/// `num_traits::One::one` (through `Float`): the multiplicative identity of
/// `T`, as the trait documents it (`a * 1 = a`, `1 * a = a`).
#[verifier::external_body]
pub(crate) fn one_of<T: Float + Mul<Output = T>>() -> (r: T)
    ensures
        T::obeys_mul_spec() ==> is_multiplicative_identity(r),
{
    T::one()
}

/// `num_traits::Float::sin`.  No clause ties the result to the argument.
#[verifier::external_body]
pub(crate) fn sin_of<T: Float>(x: T) -> T {
    x.sin()
}

/// `num_traits::Float::cos`.  No clause ties the result to the argument.
#[verifier::external_body]
pub(crate) fn cos_of<T: Float>(x: T) -> T {
    x.cos()
}

/// `num_traits::Float::exp`.  No clause ties the result to the argument.
#[verifier::external_body]
pub(crate) fn exp_of<T: Float>(x: T) -> T {
    x.exp()
}

/// `num_traits::Float::ln`.  No clause ties the result to the argument.
#[verifier::external_body]
pub(crate) fn ln_of<T: Float>(x: T) -> T {
    x.ln()
}

/// `num_traits::Float::powf`.  No clause ties the result to the argument.
#[verifier::external_body]
pub(crate) fn powf_of<T: Float>(x: T, n: T) -> T {
    x.powf(n)
}

/// `num_traits::Float::sqrt`.  No clause ties the result to the argument.
#[verifier::external_body]
pub(crate) fn sqrt_of<T: Float>(x: T) -> T {
    x.sqrt()
}

/// `num_traits::Float::tan`.  No clause ties the result to the argument.
#[verifier::external_body]
pub(crate) fn tan_of<T: Float>(x: T) -> T {
    x.tan()
}

/// `num_traits::Float::asin`.  No clause ties the result to the argument.
#[verifier::external_body]
pub(crate) fn asin_of<T: Float>(x: T) -> T {
    x.asin()
}

/// `num_traits::Float::acos`.  No clause ties the result to the argument.
#[verifier::external_body]
pub(crate) fn acos_of<T: Float>(x: T) -> T {
    x.acos()
}

/// `num_traits::Float::atan2` (`y.atan2(x)`).  No clause ties the result to the argument.
#[verifier::external_body]
pub(crate) fn atan2_of<T: Float>(y: T, x: T) -> T {
    y.atan2(x)
}

} // verus!
