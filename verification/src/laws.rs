//! Properties that span several operations of the library.
use crate::model::{
    atan2_model, chain_model, constant_result, constant_model, difference_model, is_additive_identity,
    is_multiplicative_identity, negation_model, product_model, sum_model, variable_model,
    variable_result, DualModel,
};
use crate::dual::{
    computes_asin, computes_atan2, computes_powf, computes_sin, is_asin_of, is_atan2_of,
    is_cos_of, is_powf_of, is_sin_of, is_sqrt_of, Dual,
};
use crate::jacobian::{computes_jacobian, is_matrix_from, is_vector_from};
use crate::model::exact_total_arithmetic;
use nalgebra::{Scalar, SMatrix, SVector};
use num_traits::Float;
use std::ops::{Add, Div, Mul, Neg, Sub};
use vstd::prelude::*;
use vstd::std_specs::ops::{AddSpec, DivSpec, MulSpec, NegSpec, SubSpec};

verus! {

/// Adding a constant leaves every partial derivative unchanged:
/// `(x + c)' = x'`.
pub proof fn law_constant_adds_no_gradient<T: Add<Output = T>>(
    x: DualModel<T>,
    c: T,
    k: DualModel<T>,
)
    requires
        T::obeys_add_spec(),
        constant_result(c, x.grad.len(), k),
    ensures
        sum_model(x, k).grad == x.grad,
        sum_model(k, x).grad == x.grad,
{
    let z = choose|z: T|
        (T::obeys_add_spec() ==> is_additive_identity(z)) && k == #[trigger] constant_model(
            c,
            z,
            x.grad.len(),
        );
    assert(sum_model(x, k).grad =~= x.grad);
    assert(sum_model(k, x).grad =~= x.grad);
}

/// The derivative of `x · x` for the seeded variable `x` at `v` is `v + v`
/// in the slot of `x` (`d/dx x² = 2x`).
pub proof fn law_square_of_variable<T: Add<Output = T> + Mul<Output = T>>(
    v: T,
    index: int,
    n: nat,
    x: DualModel<T>,
)
    requires
        T::obeys_add_spec(),
        T::obeys_mul_spec(),
        0 <= index < n,
        variable_result(v, index, n, x),
    ensures
        product_model(x, x).value == v.mul_spec(v),
        product_model(x, x).grad[index] == v.add_spec(v),
{
    let (z, u) = choose|z: T, u: T|
        {
            &&& T::obeys_add_spec() ==> is_additive_identity(z)
            &&& T::obeys_mul_spec() ==> is_multiplicative_identity(u)
            &&& x == #[trigger] variable_model(v, index, z, u, n)
        };
    assert(x.grad[index] == u);
    assert(u.mul_spec(v) == v);
    assert(v.mul_spec(u) == v);
}

/// Two distinct seeded variables add to a dual number whose partial
/// derivatives are 1 in both their slots and 0 elsewhere
/// (`∇(x + y) = eₓ + e_y`).
pub proof fn law_sum_of_two_variables<T: Add<Output = T> + Mul<Output = T>>(
    v: T,
    i: int,
    w: T,
    j: int,
    n: nat,
    x: DualModel<T>,
    y: DualModel<T>,
)
    requires
        T::obeys_add_spec(),
        T::obeys_mul_spec(),
        0 <= i < n,
        0 <= j < n,
        i != j,
        variable_result(v, i, n, x),
        variable_result(w, j, n, y),
    ensures
        sum_model(x, y).grad[i] == x.grad[i],
        sum_model(x, y).grad[j] == y.grad[j],
        is_multiplicative_identity(x.grad[i]),
        is_multiplicative_identity(y.grad[j]),
        forall|k: int|
            0 <= k < n && k != i && k != j ==> is_additive_identity(#[trigger] sum_model(x, y).grad[k]),
{
    let (z1, u1) = choose|z: T, u: T|
        {
            &&& T::obeys_add_spec() ==> is_additive_identity(z)
            &&& T::obeys_mul_spec() ==> is_multiplicative_identity(u)
            &&& x == #[trigger] variable_model(v, i, z, u, n)
        };
    let (z2, u2) = choose|z: T, u: T|
        {
            &&& T::obeys_add_spec() ==> is_additive_identity(z)
            &&& T::obeys_mul_spec() ==> is_multiplicative_identity(u)
            &&& y == #[trigger] variable_model(w, j, z, u, n)
        };
    assert(x.grad[j] == z1);
    assert(y.grad[i] == z2);
    assert(x.grad[i].add_spec(z2) == x.grad[i]);
    assert(z1.add_spec(y.grad[j]) == y.grad[j]);
    assert forall|k: int| 0 <= k < n && k != i && k != j implies is_additive_identity(
        #[trigger] sum_model(x, y).grad[k],
    ) by {
        assert(x.grad[k] == z1);
        assert(y.grad[k] == z2);
        assert(z1.add_spec(z2) == z1);
    }
}

} // verus!

verus! {

/// Where the scalar addition commutes, so does the addition of dual numbers.
pub proof fn law_sum_commutes<T: Add<Output = T>>(a: DualModel<T>, b: DualModel<T>)
    requires
        a.grad.len() == b.grad.len(),
        forall|x: T, y: T| #[trigger] x.add_spec(y) == y.add_spec(x),
    ensures
        sum_model(a, b) == sum_model(b, a),
{
    assert(sum_model(a, b).grad =~= sum_model(b, a).grad);
}

/// Where the scalar addition and multiplication commute, so does the
/// multiplication of dual numbers (the product rule is symmetric).
pub proof fn law_product_commutes<T: Add<Output = T> + Mul<Output = T>>(
    a: DualModel<T>,
    b: DualModel<T>,
)
    requires
        a.grad.len() == b.grad.len(),
        forall|x: T, y: T| #[trigger] x.add_spec(y) == y.add_spec(x),
        forall|x: T, y: T| #[trigger] x.mul_spec(y) == y.mul_spec(x),
    ensures
        product_model(a, b) == product_model(b, a),
{
    assert forall|i: int| 0 <= i < a.grad.len() implies #[trigger] product_model(a, b).grad[i]
        == product_model(b, a).grad[i] by {
        assert(a.grad[i].mul_spec(b.value) == b.value.mul_spec(a.grad[i]));
        assert(a.value.mul_spec(b.grad[i]) == b.grad[i].mul_spec(a.value));
        assert(b.grad[i].mul_spec(a.value).add_spec(b.value.mul_spec(a.grad[i]))
            == b.value.mul_spec(a.grad[i]).add_spec(b.grad[i].mul_spec(a.value)));
    }
    assert(product_model(a, b).grad =~= product_model(b, a).grad);
}

} // verus!

verus! {

/// Subtracting is adding the negation, `a - b == a + (-b)`, where the scalar
/// subtraction is addition of the negation.
pub proof fn law_difference_is_sum_of_negation<T: Add<Output = T> + Sub<Output = T> + Neg<Output = T>>(
    a: DualModel<T>,
    b: DualModel<T>,
)
    requires
        a.grad.len() == b.grad.len(),
        forall|x: T, y: T| #[trigger] x.sub_spec(y) == x.add_spec(y.neg_spec()),
    ensures
        difference_model(a, b) == sum_model(a, negation_model(b)),
{
    assert(difference_model(a, b).grad =~= sum_model(a, negation_model(b)).grad);
}

/// Negating twice gives back the dual number, `-(-a) == a`, where the scalar
/// negation is an involution.
pub proof fn law_double_negation<T: Neg<Output = T>>(a: DualModel<T>)
    requires
        forall|x: T| #[trigger] x.neg_spec().neg_spec() == x,
    ensures
        negation_model(negation_model(a)) == a,
{
    assert(negation_model(negation_model(a)).grad =~= a.grad);
}

/// Adding the constant zero leaves a dual number unchanged, value and partial
/// derivatives: `a + constant(0) == a` and `constant(0) + a == a`.
pub proof fn law_add_constant_zero<T: Add<Output = T>>(a: DualModel<T>, z: T, k: DualModel<T>)
    requires
        T::obeys_add_spec(),
        is_additive_identity(z),
        constant_result(z, a.grad.len(), k),
    ensures
        sum_model(a, k) == a,
        sum_model(k, a) == a,
{
    let z2 = choose|z2: T|
        (T::obeys_add_spec() ==> is_additive_identity(z2)) && k == #[trigger] constant_model(
            z,
            z2,
            a.grad.len(),
        );
    assert(a.value.add_spec(z) == a.value);
    assert(z.add_spec(a.value) == a.value);
    assert(sum_model(a, k).grad =~= a.grad);
    assert(sum_model(k, a).grad =~= a.grad);
}

/// Multiplying by the constant one leaves a dual number unchanged:
/// `a * constant(1) == a` and `constant(1) * a == a`, where a product with
/// the additive identity is the additive identity.
pub proof fn law_mul_constant_one<T: Add<Output = T> + Mul<Output = T>>(
    a: DualModel<T>,
    u: T,
    k: DualModel<T>,
)
    requires
        T::obeys_add_spec(),
        is_multiplicative_identity(u),
        constant_result(u, a.grad.len(), k),
        forall|x: T, z: T|
            #![trigger x.mul_spec(z)]
            #![trigger z.mul_spec(x)]
            is_additive_identity(z) ==> x.mul_spec(z) == z && z.mul_spec(x) == z,
    ensures
        product_model(a, k) == a,
        product_model(k, a) == a,
{
    let z = choose|z: T|
        (T::obeys_add_spec() ==> is_additive_identity(z)) && k == #[trigger] constant_model(
            u,
            z,
            a.grad.len(),
        );
    assert(a.value.mul_spec(z) == z);
    assert(z.mul_spec(a.value) == z);
    assert forall|i: int| 0 <= i < a.grad.len() implies #[trigger] product_model(a, k).grad[i]
        == a.grad[i] && product_model(k, a).grad[i] == a.grad[i] by {
        assert(a.grad[i].mul_spec(u) == a.grad[i]);
        assert(u.mul_spec(a.grad[i]) == a.grad[i]);
        assert(a.grad[i].add_spec(z) == a.grad[i]);
        assert(z.add_spec(a.grad[i]) == a.grad[i]);
    }
    assert(product_model(a, k).grad =~= a.grad);
    assert(product_model(k, a).grad =~= a.grad);
}

/// Negating the ordinate negates the partial derivatives of `atan2`:
/// `∇atan2(-y, x) == -∇atan2(y, x)`, where negation passes through products,
/// differences and quotients and is an involution.
pub proof fn law_atan2_odd_in_ordinate<
    T: Add<Output = T> + Sub<Output = T> + Mul<Output = T> + Div<Output = T> + Neg<Output = T>,
>(y: DualModel<T>, x: DualModel<T>, v: T, w: T)
    requires
        y.grad.len() == x.grad.len(),
        forall|p: T, q: T| #[trigger] p.neg_spec().mul_spec(q) == p.mul_spec(q).neg_spec(),
        forall|p: T, q: T| #[trigger] p.mul_spec(q.neg_spec()) == p.mul_spec(q).neg_spec(),
        forall|p: T, q: T|
            #[trigger] p.neg_spec().sub_spec(q.neg_spec()) == p.sub_spec(q).neg_spec(),
        forall|p: T, q: T| #[trigger] p.neg_spec().div_spec(q) == p.div_spec(q).neg_spec(),
        forall|p: T| #[trigger] p.neg_spec().neg_spec() == p,
    ensures
        atan2_model(negation_model(y), x, w).grad == negation_model(atan2_model(y, x, v)).grad,
{
    let ny = negation_model(y);
    let a = y.value;
    let b = x.value;
    assert(a.neg_spec().mul_spec(a.neg_spec()) == a.mul_spec(a.neg_spec()).neg_spec());
    assert(a.mul_spec(a.neg_spec()) == a.mul_spec(a).neg_spec());
    assert(a.mul_spec(a).neg_spec().neg_spec() == a.mul_spec(a));
    let denom = a.mul_spec(a).add_spec(b.mul_spec(b));
    assert(ny.value.mul_spec(ny.value).add_spec(b.mul_spec(b)) == denom);
    assert forall|i: int| 0 <= i < y.grad.len() implies #[trigger] atan2_model(ny, x, w).grad[i]
        == negation_model(atan2_model(y, x, v)).grad[i] by {
        let g = y.grad[i];
        let h = x.grad[i];
        assert(ny.grad[i] == g.neg_spec());
        assert(b.mul_spec(g.neg_spec()) == b.mul_spec(g).neg_spec());
        assert(a.neg_spec().mul_spec(h) == a.mul_spec(h).neg_spec());
        assert(b.mul_spec(g).neg_spec().sub_spec(a.mul_spec(h).neg_spec())
            == b.mul_spec(g).sub_spec(a.mul_spec(h)).neg_spec());
        assert(b.mul_spec(g).sub_spec(a.mul_spec(h)).neg_spec().div_spec(denom)
            == b.mul_spec(g).sub_spec(a.mul_spec(h)).div_spec(denom).neg_spec());
    }
    assert(atan2_model(ny, x, w).grad =~= negation_model(atan2_model(y, x, v)).grad);
}

} // verus!

verus! {

/// The sine of the seeded variable `x` at `v`: its value is the sine of `v`,
/// and its partial derivative with respect to `x` is the cosine of `v`.
pub proof fn law_sin_at_variable<T: Float + Add<Output = T> + Sub<Output = T> + Mul<Output = T> + Div<Output = T> + Neg<Output = T>>(v: T, k: int, n: nat, x: DualModel<T>, r: DualModel<T>)
    requires
        exact_total_arithmetic::<T>(),
        0 <= k < n,
        variable_result(v, k, n, x),
        computes_sin(x, r),
    ensures
        is_sin_of(v, r.value),
        r.grad.len() == n,
        exists|c: T| is_cos_of(v, c) && r.grad[k] == c,
{
    let (z, u) = choose|z: T, u: T|
        {
            &&& T::obeys_add_spec() ==> is_additive_identity(z)
            &&& T::obeys_mul_spec() ==> is_multiplicative_identity(u)
            &&& x == #[trigger] variable_model(v, k, z, u, n)
        };
    let (s, c) = choose|s: T, c: T|
        is_sin_of(x.value, s) && is_cos_of(x.value, c) && r == #[trigger] chain_model(x, s, c);
    assert(x.grad[k] == u);
    assert(u.mul_spec(c) == c);
    assert(r.grad[k] == c);
}

/// The arcsine of the seeded variable `x` at `v`: its value is the arcsine of
/// `v`, and its partial derivative with respect to `x` is `1 / s`, `s` the
/// square root of `1 - v²`.
pub proof fn law_asin_at_variable<T: Float + Add<Output = T> + Sub<Output = T> + Mul<Output = T> + Div<Output = T> + Neg<Output = T>>(v: T, k: int, n: nat, x: DualModel<T>, r: DualModel<T>)
    requires
        exact_total_arithmetic::<T>(),
        0 <= k < n,
        variable_result(v, k, n, x),
        computes_asin(x, r),
    ensures
        is_asin_of(v, r.value),
        r.grad.len() == n,
        exists|s: T, u: T|
            #![trigger is_sqrt_of(u.sub_spec(v.mul_spec(v)), s)]
            is_multiplicative_identity(u) && is_sqrt_of(u.sub_spec(v.mul_spec(v)), s) && r.grad[k]
                == u.div_spec(s),
{
    let (z, u1) = choose|z: T, u: T|
        {
            &&& T::obeys_add_spec() ==> is_additive_identity(z)
            &&& T::obeys_mul_spec() ==> is_multiplicative_identity(u)
            &&& x == #[trigger] variable_model(v, k, z, u, n)
        };
    let (w, s, u) = choose|w: T, s: T, u: T|
        {
            &&& is_multiplicative_identity(u)
            &&& is_asin_of(x.value, w)
            &&& is_sqrt_of(u.sub_spec(x.value.mul_spec(x.value)), s)
            &&& r == #[trigger] chain_model(x, w, u.div_spec(s))
        };
    assert(x.grad[k] == u1);
    assert(u1.mul_spec(u.div_spec(s)) == u.div_spec(s));
    assert(r.grad[k] == u.div_spec(s));
    assert(is_sqrt_of(u.sub_spec(v.mul_spec(v)), s));
}

/// The power `x^n` of the seeded variable `x` at `v`: its value is `v^n`,
/// and its partial derivative with respect to `x` is `n · v^(n - 1)`.
pub proof fn law_powf_at_variable<T: Float + Add<Output = T> + Sub<Output = T> + Mul<Output = T> + Div<Output = T> + Neg<Output = T>>(
    v: T,
    k: int,
    m: nat,
    n: T,
    x: DualModel<T>,
    r: DualModel<T>,
)
    requires
        exact_total_arithmetic::<T>(),
        0 <= k < m,
        variable_result(v, k, m, x),
        computes_powf(x, n, r),
    ensures
        is_powf_of(v, n, r.value),
        r.grad.len() == m,
        exists|q: T, u: T|
            #![trigger is_powf_of(v, n.sub_spec(u), q)]
            is_multiplicative_identity(u) && is_powf_of(v, n.sub_spec(u), q) && r.grad[k]
                == n.mul_spec(q),
{
    let (z, u1) = choose|z: T, u: T|
        {
            &&& T::obeys_add_spec() ==> is_additive_identity(z)
            &&& T::obeys_mul_spec() ==> is_multiplicative_identity(u)
            &&& x == #[trigger] variable_model(v, k, z, u, m)
        };
    let (p, q, u) = choose|p: T, q: T, u: T|
        #![trigger chain_model(x, p, n.mul_spec(q)), is_powf_of(x.value, n.sub_spec(u), q)]
        {
            &&& is_multiplicative_identity(u)
            &&& is_powf_of(x.value, n, p)
            &&& is_powf_of(x.value, n.sub_spec(u), q)
            &&& r == chain_model(x, p, n.mul_spec(q))
        };
    assert(x.grad[k] == u1);
    assert(u1.mul_spec(n.mul_spec(q)) == n.mul_spec(q));
    assert(r.grad[k] == n.mul_spec(q));
}

/// `atan2(y, x)` of two distinct seeded variables `y` at `a` and `x` at `b`:
/// its value is the four-quadrant arctangent of `a` over `b`, and its partial
/// derivatives are `b / (a² + b²)` with respect to `y` and `-a / (a² + b²)`
/// with respect to `x` — where a product with the additive identity is that
/// identity, and subtracting it, or from it, is as for the integers.
pub proof fn law_atan2_at_variables<T: Float + Add<Output = T> + Sub<Output = T> + Mul<Output = T> + Div<Output = T> + Neg<Output = T>>(
    a: T,
    i: int,
    b: T,
    j: int,
    n: nat,
    y: DualModel<T>,
    x: DualModel<T>,
    r: DualModel<T>,
)
    requires
        exact_total_arithmetic::<T>(),
        0 <= i < n,
        0 <= j < n,
        i != j,
        variable_result(a, i, n, y),
        variable_result(b, j, n, x),
        computes_atan2(y, x, r),
        forall|p: T, z: T| is_additive_identity(z) ==> #[trigger] p.mul_spec(z) == z,
        forall|p: T, z: T|
            #![trigger p.sub_spec(z)]
            #![trigger z.sub_spec(p)]
            is_additive_identity(z) ==> p.sub_spec(z) == p && z.sub_spec(p) == p.neg_spec(),
    ensures
        is_atan2_of(a, b, r.value),
        r.grad.len() == n,
        r.grad[i] == b.div_spec(a.mul_spec(a).add_spec(b.mul_spec(b))),
        r.grad[j] == a.neg_spec().div_spec(a.mul_spec(a).add_spec(b.mul_spec(b))),
{
    let (z1, u1) = choose|z: T, u: T|
        {
            &&& T::obeys_add_spec() ==> is_additive_identity(z)
            &&& T::obeys_mul_spec() ==> is_multiplicative_identity(u)
            &&& y == #[trigger] variable_model(a, i, z, u, n)
        };
    let (z2, u2) = choose|z: T, u: T|
        {
            &&& T::obeys_add_spec() ==> is_additive_identity(z)
            &&& T::obeys_mul_spec() ==> is_multiplicative_identity(u)
            &&& x == #[trigger] variable_model(b, j, z, u, n)
        };
    let w = choose|w: T| is_atan2_of(y.value, x.value, w) && r == #[trigger] atan2_model(y, x, w);
    assert(y.grad[i] == u1 && x.grad[i] == z2);
    assert(y.grad[j] == z1 && x.grad[j] == u2);
    assert(b.mul_spec(u1) == b);
    assert(a.mul_spec(z2) == z2);
    assert(b.sub_spec(z2) == b);
    assert(b.mul_spec(z1) == z1);
    assert(a.mul_spec(u2) == a);
    assert(z1.sub_spec(a) == a.neg_spec());
}

/// The Jacobian of `N` inputs seeded as the `N` tracked variables is the
/// identity matrix: nalgebra's matrix of columns whose entry `(i, j)` is the
/// multiplicative identity where `i == j` and the additive identity elsewhere,
/// with the inputs as the value vector.
pub proof fn law_jacobian_of_seeds<T: Float + Add<Output = T> + Sub<Output = T> + Mul<Output = T> + Div<Output = T> + Neg<Output = T> + Scalar, const N: usize>(
    vals: [T; N],
    outputs: [Dual<T, N>; N],
    r: (SVector<T, N>, SMatrix<T, N, N>),
)
    requires
        exact_total_arithmetic::<T>(),
        forall|k: int| 0 <= k < N ==> variable_result(vals[k], k, N as nat, #[trigger] outputs[k]@),
        computes_jacobian(outputs, r),
    ensures
        exists|values: [T; N], columns: [[T; N]; N]|
            #![trigger is_vector_from(values, r.0), is_matrix_from(columns, r.1)]
            {
                &&& is_vector_from(values, r.0)
                &&& is_matrix_from(columns, r.1)
                &&& values == vals
                &&& forall|i: int, j: int|
                    0 <= i < N && 0 <= j < N ==> (i == j ==> is_multiplicative_identity(
                        #[trigger] columns[j][i],
                    )) && (i != j ==> is_additive_identity(columns[j][i]))
            },
{
    let (values, columns) = choose|values: [T; N], columns: [[T; N]; N]|
        #![trigger is_vector_from(values, r.0), is_matrix_from(columns, r.1)]
        crate::jacobian::are_jacobian_entries(outputs, values, columns) && is_vector_from(values, r.0)
            && is_matrix_from(columns, r.1);
    assert forall|i: int, j: int| 0 <= i < N && 0 <= j < N implies (i == j
        ==> is_multiplicative_identity(#[trigger] columns[j][i])) && (i != j ==> is_additive_identity(
        columns[j][i],
    )) by {
        let o = outputs[i];
        assert(variable_result(vals[i], i, N as nat, o@));
        let (z, u) = choose|z: T, u: T|
            {
                &&& T::obeys_add_spec() ==> is_additive_identity(z)
                &&& T::obeys_mul_spec() ==> is_multiplicative_identity(u)
                &&& o@ == #[trigger] variable_model(vals[i], i, z, u, N as nat)
            };
        assert(columns[j][i] == o@.grad[j]);
    }
    assert forall|k: int| 0 <= k < N implies values[k] == vals[k] by {
        let o = outputs[k];
        assert(variable_result(vals[k], k, N as nat, o@));
        let (z, u) = choose|z: T, u: T|
            {
                &&& T::obeys_add_spec() ==> is_additive_identity(z)
                &&& T::obeys_mul_spec() ==> is_multiplicative_identity(u)
                &&& o@ == #[trigger] variable_model(vals[k], k, z, u, N as nat)
            };
    }
    assert(values =~= vals);
}

} // verus!
