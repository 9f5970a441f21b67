//! The mathematical model of a dual number and of each propagation rule.
//!
//! A dual number with `n` tracked variables is a value together with a
//! sequence of `n` partial derivatives.  Every operation of the library is
//! described here as a function on such models, written with the spec-level
//! meaning of the scalar operators (`add_spec`, `mul_spec`, ...).
use std::ops::{Add, Div, Mul, Neg, Sub};
use vstd::prelude::*;
use vstd::std_specs::ops::{AddSpec, DivSpec, MulSpec, NegSpec, SubSpec};

verus! {

/// A value and its partial derivatives, one per tracked variable.
pub struct DualModel<T> {
    pub value: T,
    pub grad: Seq<T>,
}

/// The scalar operators compute what their specifications say and are defined
/// on every pair of operands.  vstd gives `f32` and `f64` no `obeys_*_spec`,
/// so no verified caller can establish this for them: the contracts that
/// require it speak of scalar types that declare their operators exact.
pub open spec fn exact_total_arithmetic<
    T: Add<Output = T> + Sub<Output = T> + Mul<Output = T> + Div<Output = T> + Neg<Output = T>,
>() -> bool {
    &&& T::obeys_add_spec()
    &&& T::obeys_sub_spec()
    &&& T::obeys_mul_spec()
    &&& T::obeys_div_spec()
    &&& T::obeys_neg_spec()
    &&& forall|x: T, y: T| #[trigger] x.add_req(y)
    &&& forall|x: T, y: T| #[trigger] x.sub_req(y)
    &&& forall|x: T, y: T| #[trigger] x.mul_req(y)
    &&& forall|x: T, y: T| #[trigger] x.div_req(y)
    &&& forall|x: T| #[trigger] x.neg_req()
}

/// `z` is an additive identity: `a + z == a` and `z + a == a` for every `a`.
pub open spec fn is_additive_identity<T: Add<Output = T>>(z: T) -> bool {
    forall|a: T|
        #![trigger a.add_spec(z)]
        #![trigger z.add_spec(a)]
        a.add_spec(z) == a && z.add_spec(a) == a
}

/// `u` is a multiplicative identity: `a * u == a` and `u * a == a` for every `a`.
pub open spec fn is_multiplicative_identity<T: Mul<Output = T>>(u: T) -> bool {
    forall|a: T|
        #![trigger a.mul_spec(u)]
        #![trigger u.mul_spec(a)]
        a.mul_spec(u) == a && u.mul_spec(a) == a
}

/// `(a + b)' = a' + b'`
pub open spec fn sum_model<T: Add<Output = T>>(a: DualModel<T>, b: DualModel<T>) -> DualModel<T> {
    DualModel {
        value: a.value.add_spec(b.value),
        grad: Seq::new(a.grad.len(), |i: int| a.grad[i].add_spec(b.grad[i])),
    }
}

pub open spec fn sum_defined<T: Add<Output = T>>(a: DualModel<T>, b: DualModel<T>) -> bool {
    &&& a.value.add_req(b.value)
    &&& forall|i: int| 0 <= i < a.grad.len() ==> (#[trigger] a.grad[i]).add_req(b.grad[i])
}

/// `(a - b)' = a' - b'`
pub open spec fn difference_model<T: Sub<Output = T>>(a: DualModel<T>, b: DualModel<T>) -> DualModel<T> {
    DualModel {
        value: a.value.sub_spec(b.value),
        grad: Seq::new(a.grad.len(), |i: int| a.grad[i].sub_spec(b.grad[i])),
    }
}

pub open spec fn difference_defined<T: Sub<Output = T>>(a: DualModel<T>, b: DualModel<T>) -> bool {
    &&& a.value.sub_req(b.value)
    &&& forall|i: int| 0 <= i < a.grad.len() ==> (#[trigger] a.grad[i]).sub_req(b.grad[i])
}

/// Product rule: `(a·b)' = a'·b + a·b'`
pub open spec fn product_model<T: Add<Output = T> + Mul<Output = T>>(
    a: DualModel<T>,
    b: DualModel<T>,
) -> DualModel<T> {
    DualModel {
        value: a.value.mul_spec(b.value),
        grad: Seq::new(
            a.grad.len(),
            |i: int| a.grad[i].mul_spec(b.value).add_spec(a.value.mul_spec(b.grad[i])),
        ),
    }
}

pub open spec fn product_defined<T: Add<Output = T> + Mul<Output = T>>(
    a: DualModel<T>,
    b: DualModel<T>,
) -> bool {
    &&& a.value.mul_req(b.value)
    &&& forall|i: int|
        0 <= i < a.grad.len() ==> {
            &&& (#[trigger] a.grad[i]).mul_req(b.value)
            &&& a.value.mul_req(b.grad[i])
            &&& a.grad[i].mul_spec(b.value).add_req(a.value.mul_spec(b.grad[i]))
        }
}

/// Quotient rule: `(a/b)' = (a'·b - a·b') / (b·b)`
pub open spec fn quotient_model<T: Sub<Output = T> + Mul<Output = T> + Div<Output = T>>(
    a: DualModel<T>,
    b: DualModel<T>,
) -> DualModel<T> {
    DualModel {
        value: a.value.div_spec(b.value),
        grad: Seq::new(
            a.grad.len(),
            |i: int|
                a.grad[i].mul_spec(b.value).sub_spec(a.value.mul_spec(b.grad[i])).div_spec(
                    b.value.mul_spec(b.value),
                ),
        ),
    }
}

pub open spec fn quotient_defined<T: Sub<Output = T> + Mul<Output = T> + Div<Output = T>>(
    a: DualModel<T>,
    b: DualModel<T>,
) -> bool {
    &&& a.value.div_req(b.value)
    &&& forall|i: int|
        0 <= i < a.grad.len() ==> {
            &&& (#[trigger] a.grad[i]).mul_req(b.value)
            &&& a.value.mul_req(b.grad[i])
            &&& a.grad[i].mul_spec(b.value).sub_req(a.value.mul_spec(b.grad[i]))
            &&& b.value.mul_req(b.value)
            &&& a.grad[i].mul_spec(b.value).sub_spec(a.value.mul_spec(b.grad[i])).div_req(
                b.value.mul_spec(b.value),
            )
        }
}

/// `(-a)' = -a'`
pub open spec fn negation_model<T: Neg<Output = T>>(a: DualModel<T>) -> DualModel<T> {
    DualModel {
        value: a.value.neg_spec(),
        grad: Seq::new(a.grad.len(), |i: int| a.grad[i].neg_spec()),
    }
}

pub open spec fn negation_defined<T: Neg<Output = T>>(a: DualModel<T>) -> bool {
    &&& a.value.neg_req()
    &&& forall|i: int| 0 <= i < a.grad.len() ==> (#[trigger] a.grad[i]).neg_req()
}

/// Chain rule: `f(a)' = a'·f'(a.value)`, given `f(a.value)` and `f'(a.value)`.
pub open spec fn chain_model<T: Mul<Output = T>>(a: DualModel<T>, value: T, deriv: T) -> DualModel<T> {
    DualModel { value, grad: Seq::new(a.grad.len(), |i: int| a.grad[i].mul_spec(deriv)) }
}

/// The constant `c` with `n` tracked variables, whose partial derivatives are all `z`.
pub open spec fn constant_model<T>(c: T, z: T, n: nat) -> DualModel<T> {
    DualModel { value: c, grad: Seq::new(n, |i: int| z) }
}

/// The variable number `index` of `n` at `v`: unit vector `u` at `index`, `z` elsewhere.
pub open spec fn variable_model<T>(v: T, index: int, z: T, u: T, n: nat) -> DualModel<T> {
    DualModel { value: v, grad: Seq::new(n, |i: int| if i == index { u } else { z }) }
}

/// `atan2(a, b)' = (b·a' - a·b') / (a·a + b·b)`, given `atan2(a.value, b.value)`.
pub open spec fn atan2_model<T: Add<Output = T> + Sub<Output = T> + Mul<Output = T> + Div<Output = T>>(
    a: DualModel<T>,
    b: DualModel<T>,
    value: T,
) -> DualModel<T> {
    let denom = a.value.mul_spec(a.value).add_spec(b.value.mul_spec(b.value));
    DualModel {
        value,
        grad: Seq::new(
            a.grad.len(),
            |i: int| b.value.mul_spec(a.grad[i]).sub_spec(a.value.mul_spec(b.grad[i])).div_spec(denom),
        ),
    }
}

} // verus!

verus! {

/// The constant `c`: its partial derivatives are all one value `z`, which is
/// the additive identity wherever `T`'s addition obeys its specification.
pub open spec fn constant_result<T: Add<Output = T>>(c: T, n: nat, r: DualModel<T>) -> bool {
    exists|z: T|
        (T::obeys_add_spec() ==> is_additive_identity(z)) && r == #[trigger] constant_model(c, z, n)
}

/// The variable number `index` at `v`: a unit vector of partial derivatives.
pub open spec fn variable_result<T: Add<Output = T> + Mul<Output = T>>(
    v: T,
    index: int,
    n: nat,
    r: DualModel<T>,
) -> bool {
    exists|z: T, u: T|
        {
            &&& T::obeys_add_spec() ==> is_additive_identity(z)
            &&& T::obeys_mul_spec() ==> is_multiplicative_identity(u)
            &&& r == #[trigger] variable_model(v, index, z, u, n)
        }
}

/// `sin(a)`: the chain rule with some value `s` and some derivative factor `c`.
/// The code takes them from `Float::sin` and `Float::cos` of `a.value`; this predicate does not
/// tie `s` or `c` to `a.value`.
pub open spec fn sin_result<T: Mul<Output = T>>(a: DualModel<T>, r: DualModel<T>) -> bool {
    exists|s: T, c: T| r == #[trigger] chain_model(a, s, c)
}

/// `cos(a)`: the chain rule with some value `c` and a derivative factor `-s`
/// for some `s`.  The code takes them from `Float::cos` and `Float::sin` of
/// `a.value`; this predicate does not tie `c` or `s` to `a.value`.
pub open spec fn cos_result<T: Mul<Output = T> + Neg<Output = T>>(
    a: DualModel<T>,
    r: DualModel<T>,
) -> bool {
    exists|c: T, s: T| r == #[trigger] chain_model(a, c, s.neg_spec())
}

/// `exp(a)`: the derivative factor is the value itself.  The code takes that
/// value `e` from `Float::exp` of `a.value`; this predicate does not tie `e` to `a.value`.
pub open spec fn exp_result<T: Mul<Output = T>>(a: DualModel<T>, r: DualModel<T>) -> bool {
    exists|e: T| r == #[trigger] chain_model(a, e, e)
}

/// `ln(a)`: derivative factor `1 / a.value`, with some value `l`.  The code
/// takes `l` from `Float::ln` of `a.value`; this predicate does not tie `l` to `a.value`.
pub open spec fn ln_result<T: Mul<Output = T> + Div<Output = T>>(
    a: DualModel<T>,
    r: DualModel<T>,
) -> bool {
    exists|l: T, u: T|
        is_multiplicative_identity(u) && r == #[trigger] chain_model(a, l, u.div_spec(a.value))
}

/// `a^n`: some value `p` and derivative factor `n · q` for some `q`.  The code
/// takes `p` from `Float::powf(a.value, n)` and `q` from
/// `Float::powf(a.value, n - 1)`; this predicate does not tie `p` or `q` to them.
pub open spec fn powf_result<T: Mul<Output = T>>(a: DualModel<T>, n: T, r: DualModel<T>) -> bool {
    exists|p: T, q: T| r == #[trigger] chain_model(a, p, n.mul_spec(q))
}

/// `sqrt(a)`: some value `s` and derivative factor `1 / (s + s)`.  The code
/// takes `s` from `Float::sqrt` of `a.value`; this predicate does not tie `s` to `a.value`.
pub open spec fn sqrt_result<T: Add<Output = T> + Mul<Output = T> + Div<Output = T>>(
    a: DualModel<T>,
    r: DualModel<T>,
) -> bool {
    exists|s: T, u: T|
        is_multiplicative_identity(u) && r == #[trigger] chain_model(a, s, u.div_spec(s.add_spec(s)))
}

/// `tan(a)`: some value `t` and derivative factor `1 / (c · c)` for some `c`.
/// The code takes `t` and `c` from `Float::tan` and `Float::cos` of `a.value`;
/// this predicate does not tie them to `a.value`.
pub open spec fn tan_result<T: Mul<Output = T> + Div<Output = T>>(
    a: DualModel<T>,
    r: DualModel<T>,
) -> bool {
    exists|t: T, c: T, u: T|
        is_multiplicative_identity(u) && r == #[trigger] chain_model(a, t, u.div_spec(c.mul_spec(c)))
}

/// `asin(a)`: some value `v` and derivative factor `1 / s` for some `s`.  The
/// code takes `v` from `Float::asin` of `a.value` and `s` from `Float::sqrt`
/// of `1 - a.value²`; this predicate does not tie them to those arguments.
pub open spec fn asin_result<T: Mul<Output = T> + Div<Output = T>>(
    a: DualModel<T>,
    r: DualModel<T>,
) -> bool {
    exists|v: T, s: T, u: T|
        is_multiplicative_identity(u) && r == #[trigger] chain_model(a, v, u.div_spec(s))
}

/// `acos(a)`: some value `v` and derivative factor `-1 / s` for some `s`.  The
/// code takes `v` from `Float::acos` of `a.value` and `s` from `Float::sqrt`
/// of `1 - a.value²`; this predicate does not tie them to those arguments.
pub open spec fn acos_result<T: Mul<Output = T> + Div<Output = T> + Neg<Output = T>>(
    a: DualModel<T>,
    r: DualModel<T>,
) -> bool {
    exists|v: T, s: T, u: T|
        is_multiplicative_identity(u) && r == #[trigger] chain_model(a, v, u.neg_spec().div_spec(s))
}

/// `atan2(a, b)`: some value `v` and partial derivatives by `atan2_model`.  The
/// code takes `v` from `Float::atan2(a.value, b.value)`; this predicate does not tie `v` to
/// those arguments.
pub open spec fn atan2_result<
    T: Add<Output = T> + Sub<Output = T> + Mul<Output = T> + Div<Output = T>,
>(a: DualModel<T>, b: DualModel<T>, r: DualModel<T>) -> bool {
    exists|v: T| r == #[trigger] atan2_model(a, b, v)
}

} // verus!
