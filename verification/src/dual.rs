//! Forward-mode automatic differentiation with dual numbers.
use crate::model::{
    chain_model, difference_defined, difference_model, negation_defined, negation_model,
    product_defined, product_model, quotient_defined, quotient_model, sum_defined, sum_model,
    DualModel, exact_total_arithmetic, constant_model, variable_model, atan2_model,
    is_additive_identity, is_multiplicative_identity, constant_result, variable_result,
    sin_result, cos_result, exp_result, ln_result, powf_result, sqrt_result, tan_result,
    asin_result, acos_result, atan2_result,
};
use crate::scalar::{
    zero_of, one_of, sin_of, cos_of, exp_of, ln_of, powf_of, sqrt_of, tan_of, asin_of, acos_of,
    atan2_of,
};
use num_traits::Float;
use std::ops::{Add, Div, Mul, Neg, Sub};
use vstd::prelude::*;
use vstd::std_specs::ops::{AddSpec, DivSpec, MulSpec, NegSpec, SubSpec};
use vstd::std_specs::ops::{AddSpecImpl, DivSpecImpl, MulSpecImpl, NegSpecImpl, SubSpecImpl};

verus! {

/// A dual number `value + Σ grad[i]·εᵢ` (with `εᵢ·εⱼ = 0`): a value together
/// with its partial derivatives with respect to `N` tracked variables.
#[derive(Copy, Clone, Debug, PartialEq)]
pub struct Dual<T, const N: usize> {
    value: T,
    grad: [T; N],
}

impl<T, const N: usize> View for Dual<T, N> {
    type V = DualModel<T>;

    closed spec fn view(&self) -> DualModel<T> {
        DualModel { value: self.value, grad: self.grad@ }
    }
}

impl<T, const N: usize> Dual<T, N> {
    /// A dual number has `N` partial derivatives, and is determined by its model.
    pub proof fn lemma_view(self)
        ensures
            self@.grad.len() == N,
            forall|d: Self| #[trigger] d@ == self@ ==> d == self,
    {
        assert forall|d: Self| #[trigger] d@ == self@ implies d == self by {
            assert(d.grad =~= self.grad);
        }
    }
}

impl<T: Copy, const N: usize> Dual<T, N> {
    /// Generic constructor
    pub fn new(value: T, grad: [T; N]) -> (r: Self)
        ensures
            r@.value == value,
            r@.grad == grad@,
    {
        Self { value, grad }
    }

    /// Returns the value of the dual number.
    pub fn value(&self) -> (r: T)
        ensures
            r == self@.value,
    {
        self.value
    }

    /// Returns the derivative of the dual number.
    pub fn grad(&self) -> (r: [T; N])
        ensures
            r@ == self@.grad,
    {
        self.grad
    }
}

impl<T: Copy + Mul<Output = T>, const N: usize> Dual<T, N> {
    /// Chain rule: the dual number of `f(self)`, given `value = f(self.value)`
    /// and `deriv = f'(self.value)`: every partial derivative is multiplied by
    /// `deriv`.
    pub fn chain(self, value: T, deriv: T) -> (r: Self)
        requires
            T::obeys_mul_spec(),
            forall|i: int| 0 <= i < N ==> (#[trigger] self@.grad[i]).mul_req(deriv),
        ensures
            r@ == chain_model(self@, value, deriv),
    {
        proof { self.lemma_view(); }
        let mut g = self.grad;
        let mut i: usize = 0;
        while i < N
            invariant
                i <= N,
                T::obeys_mul_spec(),
                self@.grad.len() == N,
                forall|j: int| 0 <= j < N ==> (#[trigger] self@.grad[j]).mul_req(deriv),
                forall|j: int| 0 <= j < i ==> g[j] == self@.grad[j].mul_spec(deriv),
            decreases N - i,
        {
            assert(self.grad@[i as int] == self@.grad[i as int]);
            g[i] = self.grad[i] * deriv;
            i = i + 1;
        }
        let r = Self { value, grad: g };
        proof {
            assert(r@.grad =~= chain_model(self@, value, deriv).grad);
        }
        r
    }
}

impl<T: Copy + Add<Output = T>, const N: usize> AddSpecImpl for Dual<T, N> {
    open spec fn obeys_add_spec() -> bool {
        true
    }

    open spec fn add_req(self, rhs: Self) -> bool {
        T::obeys_add_spec() && sum_defined(self@, rhs@)
    }

    open spec fn add_spec(self, rhs: Self) -> Self {
        choose|d: Self| d@ == sum_model(self@, rhs@)
    }
}

/// Sum rule: values and partial derivatives add.
impl<T: Copy + Add<Output = T>, const N: usize> Add for Dual<T, N> {
    type Output = Self;

    fn add(self, rhs: Self) -> (r: Self)
        ensures
            r@ == sum_model(self@, rhs@),
    {
        proof { self.lemma_view(); }
        let mut g = self.grad;
        let mut i: usize = 0;
        while i < N
            invariant
                i <= N,
                T::obeys_add_spec(),
                sum_defined(self@, rhs@),
                self@.grad.len() == N,
                forall|j: int| 0 <= j < i ==> g[j] == self@.grad[j].add_spec(rhs@.grad[j]),
            decreases N - i,
        {
            assert(self.grad@[i as int] == self@.grad[i as int]);
            g[i] = self.grad[i] + rhs.grad[i];
            i = i + 1;
        }
        let r = Self { value: self.value + rhs.value, grad: g };
        proof {
            assert(r@.grad =~= sum_model(self@, rhs@).grad);
            r.lemma_view();
        }
        r
    }
}

impl<T: Copy + Sub<Output = T>, const N: usize> SubSpecImpl for Dual<T, N> {
    open spec fn obeys_sub_spec() -> bool {
        true
    }

    open spec fn sub_req(self, rhs: Self) -> bool {
        T::obeys_sub_spec() && difference_defined(self@, rhs@)
    }

    open spec fn sub_spec(self, rhs: Self) -> Self {
        choose|d: Self| d@ == difference_model(self@, rhs@)
    }
}

/// Difference rule: values and partial derivatives subtract.
impl<T: Copy + Sub<Output = T>, const N: usize> Sub for Dual<T, N> {
    type Output = Self;

    fn sub(self, rhs: Self) -> (r: Self)
        ensures
            r@ == difference_model(self@, rhs@),
    {
        proof { self.lemma_view(); }
        let mut g = self.grad;
        let mut i: usize = 0;
        while i < N
            invariant
                i <= N,
                T::obeys_sub_spec(),
                difference_defined(self@, rhs@),
                self@.grad.len() == N,
                forall|j: int| 0 <= j < i ==> g[j] == self@.grad[j].sub_spec(rhs@.grad[j]),
            decreases N - i,
        {
            assert(self.grad@[i as int] == self@.grad[i as int]);
            g[i] = self.grad[i] - rhs.grad[i];
            i = i + 1;
        }
        let r = Self { value: self.value - rhs.value, grad: g };
        proof {
            assert(r@.grad =~= difference_model(self@, rhs@).grad);
            r.lemma_view();
        }
        r
    }
}

impl<T: Copy + Add<Output = T> + Mul<Output = T>, const N: usize> MulSpecImpl for Dual<T, N> {
    open spec fn obeys_mul_spec() -> bool {
        true
    }

    open spec fn mul_req(self, rhs: Self) -> bool {
        T::obeys_add_spec() && T::obeys_mul_spec() && product_defined(self@, rhs@)
    }

    open spec fn mul_spec(self, rhs: Self) -> Self {
        choose|d: Self| d@ == product_model(self@, rhs@)
    }
}

/// Product rule: `(a·b)' = a'·b + a·b'`.
impl<T: Copy + Add<Output = T> + Mul<Output = T>, const N: usize> Mul for Dual<T, N> {
    type Output = Self;

    fn mul(self, rhs: Self) -> (r: Self)
        ensures
            r@ == product_model(self@, rhs@),
    {
        proof { self.lemma_view(); }
        let mut g = self.grad;
        let mut i: usize = 0;
        while i < N
            invariant
                i <= N,
                T::obeys_add_spec(),
                T::obeys_mul_spec(),
                product_defined(self@, rhs@),
                self@.grad.len() == N,
                forall|j: int|
                    0 <= j < i ==> g[j] == self@.grad[j].mul_spec(rhs@.value).add_spec(
                        self@.value.mul_spec(rhs@.grad[j]),
                    ),
            decreases N - i,
        {
            assert(self.grad@[i as int] == self@.grad[i as int]);
            g[i] = self.grad[i] * rhs.value + self.value * rhs.grad[i];
            i = i + 1;
        }
        let r = Self { value: self.value * rhs.value, grad: g };
        proof {
            assert(r@.grad =~= product_model(self@, rhs@).grad);
            r.lemma_view();
        }
        r
    }
}

impl<
    T: Copy + Add<Output = T> + Sub<Output = T> + Mul<Output = T> + Div<Output = T>,
    const N: usize,
> DivSpecImpl for Dual<T, N> {
    open spec fn obeys_div_spec() -> bool {
        true
    }

    open spec fn div_req(self, rhs: Self) -> bool {
        &&& T::obeys_sub_spec()
        &&& T::obeys_mul_spec()
        &&& T::obeys_div_spec()
        &&& quotient_defined(self@, rhs@)
    }

    open spec fn div_spec(self, rhs: Self) -> Self {
        choose|d: Self| d@ == quotient_model(self@, rhs@)
    }
}

/// Quotient rule: `(a/b)' = (a'·b - a·b') / (b·b)`.
impl<
    T: Copy + Add<Output = T> + Sub<Output = T> + Mul<Output = T> + Div<Output = T>,
    const N: usize,
> Div for Dual<T, N> {
    type Output = Self;

    fn div(self, rhs: Self) -> (r: Self)
        ensures
            r@ == quotient_model(self@, rhs@),
    {
        proof { self.lemma_view(); }
        let mut g = self.grad;
        let mut i: usize = 0;
        while i < N
            invariant
                i <= N,
                T::obeys_sub_spec(),
                T::obeys_mul_spec(),
                T::obeys_div_spec(),
                quotient_defined(self@, rhs@),
                self@.grad.len() == N,
                forall|j: int|
                    0 <= j < i ==> g[j] == self@.grad[j].mul_spec(rhs@.value).sub_spec(
                        self@.value.mul_spec(rhs@.grad[j]),
                    ).div_spec(rhs@.value.mul_spec(rhs@.value)),
            decreases N - i,
        {
            assert(self.grad@[i as int] == self@.grad[i as int]);
            g[i] = (self.grad[i] * rhs.value - self.value * rhs.grad[i]) / (rhs.value * rhs.value);
            i = i + 1;
        }
        let r = Self { value: self.value / rhs.value, grad: g };
        proof {
            assert(r@.grad =~= quotient_model(self@, rhs@).grad);
            r.lemma_view();
        }
        r
    }
}

impl<T: Copy + Neg<Output = T>, const N: usize> NegSpecImpl for Dual<T, N> {
    open spec fn obeys_neg_spec() -> bool {
        true
    }

    open spec fn neg_req(self) -> bool {
        T::obeys_neg_spec() && negation_defined(self@)
    }

    open spec fn neg_spec(self) -> Self {
        choose|d: Self| d@ == negation_model(self@)
    }
}

/// Negation: value and partial derivatives change sign.
impl<T: Copy + Neg<Output = T>, const N: usize> Neg for Dual<T, N> {
    type Output = Self;

    fn neg(self) -> (r: Self)
        ensures
            r@ == negation_model(self@),
    {
        proof { self.lemma_view(); }
        let mut g = self.grad;
        let mut i: usize = 0;
        while i < N
            invariant
                i <= N,
                T::obeys_neg_spec(),
                negation_defined(self@),
                self@.grad.len() == N,
                forall|j: int| 0 <= j < i ==> g[j] == self@.grad[j].neg_spec(),
            decreases N - i,
        {
            assert(self.grad@[i as int] == self@.grad[i as int]);
            g[i] = self.grad[i].neg();
            i = i + 1;
        }
        let r = Self { value: self.value.neg(), grad: g };
        proof {
            assert(r@.grad =~= negation_model(self@).grad);
            r.lemma_view();
        }
        r
    }
}



// What each scalar function of `num_traits::Float` returned.  `call_ensures`
// holds of an argument and a result exactly where the result came back from
// a call of the wrapper on that argument: these predicates tie a result to
// the argument it was computed from, and to nothing else.

/// `s` came back from `Float::sin` on `x`.
pub closed spec fn is_sin_of<T: Float>(x: T, s: T) -> bool {
    call_ensures(sin_of::<T>, (x,), s)
}

/// `c` came back from `Float::cos` on `x`.
pub closed spec fn is_cos_of<T: Float>(x: T, c: T) -> bool {
    call_ensures(cos_of::<T>, (x,), c)
}

/// `e` came back from `Float::exp` on `x`.
pub closed spec fn is_exp_of<T: Float>(x: T, e: T) -> bool {
    call_ensures(exp_of::<T>, (x,), e)
}

/// `l` came back from `Float::ln` on `x`.
pub closed spec fn is_ln_of<T: Float>(x: T, l: T) -> bool {
    call_ensures(ln_of::<T>, (x,), l)
}

/// `p` came back from `Float::powf` on `x` and `n`.
pub closed spec fn is_powf_of<T: Float>(x: T, n: T, p: T) -> bool {
    call_ensures(powf_of::<T>, (x, n), p)
}

/// `s` came back from `Float::sqrt` on `x`.
pub closed spec fn is_sqrt_of<T: Float>(x: T, s: T) -> bool {
    call_ensures(sqrt_of::<T>, (x,), s)
}

/// `t` came back from `Float::tan` on `x`.
pub closed spec fn is_tan_of<T: Float>(x: T, t: T) -> bool {
    call_ensures(tan_of::<T>, (x,), t)
}

/// `w` came back from `Float::asin` on `x`.
pub closed spec fn is_asin_of<T: Float>(x: T, w: T) -> bool {
    call_ensures(asin_of::<T>, (x,), w)
}

/// `w` came back from `Float::acos` on `x`.
pub closed spec fn is_acos_of<T: Float>(x: T, w: T) -> bool {
    call_ensures(acos_of::<T>, (x,), w)
}

/// `w` came back from `Float::atan2` on `y` (the ordinate) and `x`.
pub closed spec fn is_atan2_of<T: Float>(y: T, x: T, w: T) -> bool {
    call_ensures(atan2_of::<T>, (y, x), w)
}

/// `sin(a)`: value the sine of `a.value`, derivative factor its cosine.
pub open spec fn computes_sin<T: Float + Add<Output = T> + Sub<Output = T> + Mul<Output = T> + Div<Output = T> + Neg<Output = T>>(a: DualModel<T>, r: DualModel<T>) -> bool {
    exists|s: T, c: T|
        is_sin_of(a.value, s) && is_cos_of(a.value, c) && r == #[trigger] chain_model(a, s, c)
}

/// `cos(a)`: value the cosine of `a.value`, derivative factor minus its sine.
pub open spec fn computes_cos<T: Float + Add<Output = T> + Sub<Output = T> + Mul<Output = T> + Div<Output = T> + Neg<Output = T>>(a: DualModel<T>, r: DualModel<T>) -> bool {
    exists|c: T, s: T|
        is_cos_of(a.value, c) && is_sin_of(a.value, s) && r == #[trigger] chain_model(
            a,
            c,
            s.neg_spec(),
        )
}

/// `exp(a)`: value and derivative factor the exponential of `a.value`.
pub open spec fn computes_exp<T: Float + Add<Output = T> + Sub<Output = T> + Mul<Output = T> + Div<Output = T> + Neg<Output = T>>(a: DualModel<T>, r: DualModel<T>) -> bool {
    exists|e: T| is_exp_of(a.value, e) && r == #[trigger] chain_model(a, e, e)
}

/// `ln(a)`: value the logarithm of `a.value`, derivative factor `1 / a.value`.
pub open spec fn computes_ln<T: Float + Add<Output = T> + Sub<Output = T> + Mul<Output = T> + Div<Output = T> + Neg<Output = T>>(a: DualModel<T>, r: DualModel<T>) -> bool {
    exists|l: T, u: T|
        is_multiplicative_identity(u) && is_ln_of(a.value, l) && r == #[trigger] chain_model(
            a,
            l,
            u.div_spec(a.value),
        )
}

/// `a^n`: value `a.value^n`, derivative factor `n · a.value^(n - 1)`.
pub open spec fn computes_powf<T: Float + Add<Output = T> + Sub<Output = T> + Mul<Output = T> + Div<Output = T> + Neg<Output = T>>(a: DualModel<T>, n: T, r: DualModel<T>) -> bool {
    exists|p: T, q: T, u: T|
        #![trigger chain_model(a, p, n.mul_spec(q)), is_powf_of(a.value, n.sub_spec(u), q)]
        {
            &&& is_multiplicative_identity(u)
            &&& is_powf_of(a.value, n, p)
            &&& is_powf_of(a.value, n.sub_spec(u), q)
            &&& r == chain_model(a, p, n.mul_spec(q))
        }
}

/// `sqrt(a)`: value the root `s` of `a.value`, derivative factor `1 / (s + s)`.
pub open spec fn computes_sqrt<T: Float + Add<Output = T> + Sub<Output = T> + Mul<Output = T> + Div<Output = T> + Neg<Output = T>>(a: DualModel<T>, r: DualModel<T>) -> bool {
    exists|s: T, u: T|
        is_multiplicative_identity(u) && is_sqrt_of(a.value, s) && r == #[trigger] chain_model(
            a,
            s,
            u.div_spec(s.add_spec(s)),
        )
}

/// `tan(a)`: value the tangent of `a.value`, derivative factor `1 / (c · c)`
/// with `c` the cosine of `a.value`.
pub open spec fn computes_tan<T: Float + Add<Output = T> + Sub<Output = T> + Mul<Output = T> + Div<Output = T> + Neg<Output = T>>(a: DualModel<T>, r: DualModel<T>) -> bool {
    exists|t: T, c: T, u: T|
        {
            &&& is_multiplicative_identity(u)
            &&& is_tan_of(a.value, t)
            &&& is_cos_of(a.value, c)
            &&& r == #[trigger] chain_model(a, t, u.div_spec(c.mul_spec(c)))
        }
}

/// `asin(a)`: value the arcsine of `a.value`, derivative factor `1 / s` with
/// `s` the root of `1 - a.value²`.
pub open spec fn computes_asin<T: Float + Add<Output = T> + Sub<Output = T> + Mul<Output = T> + Div<Output = T> + Neg<Output = T>>(a: DualModel<T>, r: DualModel<T>) -> bool {
    exists|w: T, s: T, u: T|
        {
            &&& is_multiplicative_identity(u)
            &&& is_asin_of(a.value, w)
            &&& is_sqrt_of(u.sub_spec(a.value.mul_spec(a.value)), s)
            &&& r == #[trigger] chain_model(a, w, u.div_spec(s))
        }
}

/// `acos(a)`: value the arccosine of `a.value`, derivative factor `-1 / s`
/// with `s` the root of `1 - a.value²`.
pub open spec fn computes_acos<T: Float + Add<Output = T> + Sub<Output = T> + Mul<Output = T> + Div<Output = T> + Neg<Output = T>>(a: DualModel<T>, r: DualModel<T>) -> bool {
    exists|w: T, s: T, u: T|
        {
            &&& is_multiplicative_identity(u)
            &&& is_acos_of(a.value, w)
            &&& is_sqrt_of(u.sub_spec(a.value.mul_spec(a.value)), s)
            &&& r == #[trigger] chain_model(a, w, u.neg_spec().div_spec(s))
        }
}

/// `atan2(a, b)`: value the four-quadrant arctangent of `a.value` over
/// `b.value`, partial derivatives by `atan2_model`.
pub open spec fn computes_atan2<T: Float + Add<Output = T> + Sub<Output = T> + Mul<Output = T> + Div<Output = T> + Neg<Output = T>>(a: DualModel<T>, b: DualModel<T>, r: DualModel<T>) -> bool {
    exists|w: T| is_atan2_of(a.value, b.value, w) && r == #[trigger] atan2_model(a, b, w)
}

// The operator bounds beside `Float` are implied by it; Verus sees the
// operators of `T` through them.
impl<
    T: Float + Add<Output = T> + Sub<Output = T> + Mul<Output = T> + Div<Output = T> + Neg<Output = T>,
    const N: usize,
> Dual<T, N> {
    /// A constant: grad = 0
    pub fn constant(value: T) -> (r: Self)
        ensures
            constant_result(value, N as nat, r@),
    {
        let z = zero_of::<T>();
        let r = Self { value, grad: [z; N] };
        proof {
            vstd::array::axiom_spec_array_fill_for_copy_type::<T, N>(z);
            assert(r@.grad =~= constant_model(value, z, N as nat).grad);
            assert(r@ == constant_model(value, z, N as nat));
        }
        r
    }

    /// A variable: partial derivative w.r.t. itself is 1 at `index`, 0 elsewhere.
    pub fn var(value: T, index: usize) -> (r: Self)
        requires
            index < N,
        ensures
            variable_result(value, index as int, N as nat, r@),
    {
        let z = zero_of::<T>();
        let u = one_of::<T>();
        let mut grad = [z; N];
        proof { vstd::array::axiom_spec_array_fill_for_copy_type::<T, N>(z); }
        grad[index] = u;
        let r = Self { value, grad };
        proof {
            assert(r@.grad =~= variable_model(value, index as int, z, u, N as nat).grad);
            assert(r@ == variable_model(value, index as int, z, u, N as nat));
        }
        r
    }

    /// `sin(x)`, with partial derivatives `x'·cos(x)`.
    pub fn sin(self) -> (r: Self)
        requires
            exact_total_arithmetic::<T>(),
        ensures
            sin_result(self@, r@),
            computes_sin(self@, r@),
    {
        let cos_v = cos_of(self.value);
        let s = sin_of(self.value);
        self.chain(s, cos_v)
    }

    /// `cos(x)`, with partial derivatives `x'·(-sin(x))`.
    pub fn cos(self) -> (r: Self)
        requires
            exact_total_arithmetic::<T>(),
        ensures
            cos_result(self@, r@),
            computes_cos(self@, r@),
    {
        let sin_v = sin_of(self.value);
        let c = cos_of(self.value);
        self.chain(c, sin_v.neg())
    }

    /// `exp(x)`, with partial derivatives `x'·exp(x)`.
    pub fn exp(self) -> (r: Self)
        requires
            exact_total_arithmetic::<T>(),
        ensures
            exp_result(self@, r@),
            computes_exp(self@, r@),
    {
        let v = exp_of(self.value);
        self.chain(v, v)
    }

    /// `ln(x)`, with partial derivatives `x'·(1/x)`.
    pub fn ln(self) -> (r: Self)
        requires
            exact_total_arithmetic::<T>(),
        ensures
            ln_result(self@, r@),
            computes_ln(self@, r@),
    {
        let u = one_of::<T>();
        let inv_v = u / self.value;
        let l = ln_of(self.value);
        let r = self.chain(l, inv_v);
        proof {
            assert(is_multiplicative_identity(u));
            assert(r@ == chain_model(self@, l, u.div_spec(self@.value)));
        }
        r
    }

    /// `x^n`, with partial derivatives `x'·(n·x^(n-1))`.
    pub fn powf(self, n: T) -> (r: Self)
        requires
            exact_total_arithmetic::<T>(),
        ensures
            powf_result(self@, n, r@),
            computes_powf(self@, n, r@),
    {
        let u = one_of::<T>();
        let q = powf_of(self.value, n - u);
        let deriv = n * q;
        let p = powf_of(self.value, n);
        let r = self.chain(p, deriv);
        proof {
            assert(is_powf_of(self@.value, n.sub_spec(u), q));
            assert(is_powf_of(self@.value, n, p));
            assert(r@ == chain_model(self@, p, n.mul_spec(q)));
        }
        r
    }

    /// `sqrt(x)`, with partial derivatives `x'·(1/(2·sqrt(x)))`.
    pub fn sqrt(self) -> (r: Self)
        requires
            exact_total_arithmetic::<T>(),
        ensures
            sqrt_result(self@, r@),
            computes_sqrt(self@, r@),
    {
        let v = sqrt_of(self.value);
        let u = one_of::<T>();
        let deriv = u / (v + v);
        self.chain(v, deriv)
    }

    /// `tan(x)`, with partial derivatives `x'·(1/cos²(x))`.
    pub fn tan(self) -> (r: Self)
        requires
            exact_total_arithmetic::<T>(),
        ensures
            tan_result(self@, r@),
            computes_tan(self@, r@),
    {
        let cos_v = cos_of(self.value);
        let u = one_of::<T>();
        let deriv = u / (cos_v * cos_v);
        let t = tan_of(self.value);
        self.chain(t, deriv)
    }

    /// `asin(x)`, with partial derivatives `x'·(1/sqrt(1 - x²))`.
    pub fn asin(self) -> (r: Self)
        requires
            exact_total_arithmetic::<T>(),
        ensures
            asin_result(self@, r@),
            computes_asin(self@, r@),
    {
        let u = one_of::<T>();
        let s = sqrt_of(u - self.value * self.value);
        let deriv = u / s;
        let a = asin_of(self.value);
        self.chain(a, deriv)
    }

    /// `acos(x)`, with partial derivatives `x'·(-1/sqrt(1 - x²))`.
    pub fn acos(self) -> (r: Self)
        requires
            exact_total_arithmetic::<T>(),
        ensures
            acos_result(self@, r@),
            computes_acos(self@, r@),
    {
        let u = one_of::<T>();
        let s = sqrt_of(u - self.value * self.value);
        let deriv = u.neg() / s;
        let a = acos_of(self.value);
        self.chain(a, deriv)
    }

    /// `atan2(y, x)` for `y = self`, `x = other`, with partial derivatives
    /// `(x·y' - y·x') / (y² + x²)`.
    pub fn atan2(self, other: Self) -> (r: Self)
        requires
            exact_total_arithmetic::<T>(),
        ensures
            atan2_result(self@, other@, r@),
            computes_atan2(self@, other@, r@),
    {
        proof { self.lemma_view(); }
        let denom = self.value * self.value + other.value * other.value;
        let mut g = self.grad;
        let mut i: usize = 0;
        while i < N
            invariant
                i <= N,
                exact_total_arithmetic::<T>(),
                self@.grad.len() == N,
                denom == self@.value.mul_spec(self@.value).add_spec(other@.value.mul_spec(other@.value)),
                forall|j: int|
                    0 <= j < i ==> g[j] == other@.value.mul_spec(self@.grad[j]).sub_spec(
                        self@.value.mul_spec(other@.grad[j]),
                    ).div_spec(denom),
            decreases N - i,
        {
            assert(self.grad@[i as int] == self@.grad[i as int]);
            assert(other.grad@[i as int] == other@.grad[i as int]);
            g[i] = (other.value * self.grad[i] - self.value * other.grad[i]) / denom;
            i = i + 1;
        }
        let a = atan2_of(self.value, other.value);
        let r = Self { value: a, grad: g };
        proof {
            assert(r@.grad =~= atan2_model(self@, other@, a).grad);
            assert(r@ == atan2_model(self@, other@, a));
        }
        r
    }
}


/// Free-function form of `Dual::sin`, so expressions like `sin(x * y)` read as in mathematics.
pub fn sin<
    T: Float + Add<Output = T> + Sub<Output = T> + Mul<Output = T> + Div<Output = T> + Neg<Output = T>,
    const N: usize,
>(d: Dual<T, N>) -> (r: Dual<T, N>)
    requires
        exact_total_arithmetic::<T>(),
    ensures
        sin_result(d@, r@),
        computes_sin(d@, r@),
{
    d.sin()
}

/// Free-function form of `Dual::cos`.
pub fn cos<
    T: Float + Add<Output = T> + Sub<Output = T> + Mul<Output = T> + Div<Output = T> + Neg<Output = T>,
    const N: usize,
>(d: Dual<T, N>) -> (r: Dual<T, N>)
    requires
        exact_total_arithmetic::<T>(),
    ensures
        cos_result(d@, r@),
        computes_cos(d@, r@),
{
    d.cos()
}

/// Free-function form of `Dual::exp`.
pub fn exp<
    T: Float + Add<Output = T> + Sub<Output = T> + Mul<Output = T> + Div<Output = T> + Neg<Output = T>,
    const N: usize,
>(d: Dual<T, N>) -> (r: Dual<T, N>)
    requires
        exact_total_arithmetic::<T>(),
    ensures
        exp_result(d@, r@),
        computes_exp(d@, r@),
{
    d.exp()
}

/// Free-function form of `Dual::ln`.
pub fn ln<
    T: Float + Add<Output = T> + Sub<Output = T> + Mul<Output = T> + Div<Output = T> + Neg<Output = T>,
    const N: usize,
>(d: Dual<T, N>) -> (r: Dual<T, N>)
    requires
        exact_total_arithmetic::<T>(),
    ensures
        ln_result(d@, r@),
        computes_ln(d@, r@),
{
    d.ln()
}

/// Free-function form of `Dual::sqrt`.
pub fn sqrt<
    T: Float + Add<Output = T> + Sub<Output = T> + Mul<Output = T> + Div<Output = T> + Neg<Output = T>,
    const N: usize,
>(d: Dual<T, N>) -> (r: Dual<T, N>)
    requires
        exact_total_arithmetic::<T>(),
    ensures
        sqrt_result(d@, r@),
        computes_sqrt(d@, r@),
{
    d.sqrt()
}

/// Free-function form of `Dual::tan`.
pub fn tan<
    T: Float + Add<Output = T> + Sub<Output = T> + Mul<Output = T> + Div<Output = T> + Neg<Output = T>,
    const N: usize,
>(d: Dual<T, N>) -> (r: Dual<T, N>)
    requires
        exact_total_arithmetic::<T>(),
    ensures
        tan_result(d@, r@),
        computes_tan(d@, r@),
{
    d.tan()
}

/// Free-function form of `Dual::asin`.
pub fn asin<
    T: Float + Add<Output = T> + Sub<Output = T> + Mul<Output = T> + Div<Output = T> + Neg<Output = T>,
    const N: usize,
>(d: Dual<T, N>) -> (r: Dual<T, N>)
    requires
        exact_total_arithmetic::<T>(),
    ensures
        asin_result(d@, r@),
        computes_asin(d@, r@),
{
    d.asin()
}

/// Free-function form of `Dual::acos`.
pub fn acos<
    T: Float + Add<Output = T> + Sub<Output = T> + Mul<Output = T> + Div<Output = T> + Neg<Output = T>,
    const N: usize,
>(d: Dual<T, N>) -> (r: Dual<T, N>)
    requires
        exact_total_arithmetic::<T>(),
    ensures
        acos_result(d@, r@),
        computes_acos(d@, r@),
{
    d.acos()
}

/// Free-function form of `Dual::powf`.
pub fn powf<
    T: Float + Add<Output = T> + Sub<Output = T> + Mul<Output = T> + Div<Output = T> + Neg<Output = T>,
    const N: usize,
>(d: Dual<T, N>, n: T) -> (r: Dual<T, N>)
    requires
        exact_total_arithmetic::<T>(),
    ensures
        powf_result(d@, n, r@),
        computes_powf(d@, n, r@),
{
    d.powf(n)
}

/// Free-function form of `Dual::atan2`: `atan2(y, x)`.
pub fn atan2<
    T: Float + Add<Output = T> + Sub<Output = T> + Mul<Output = T> + Div<Output = T> + Neg<Output = T>,
    const N: usize,
>(y: Dual<T, N>, x: Dual<T, N>) -> (r: Dual<T, N>)
    requires
        exact_total_arithmetic::<T>(),
    ensures
        atan2_result(y@, x@, r@),
        computes_atan2(y@, x@, r@),
{
    y.atan2(x)
}

} // verus!
