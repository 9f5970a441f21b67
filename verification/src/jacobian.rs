//! Seeding inputs and collecting the Jacobian of a block of residuals.
use crate::dual::Dual;
use crate::model::variable_result;
use crate::scalar::zero_of;
use nalgebra::{Scalar, SMatrix, SVector};
use num_traits::Float;
use std::ops::{Add, Div, Mul, Neg, Sub};
use vstd::prelude::*;

verus! {

/// `nalgebra::Matrix`, opaque to Verus.
#[verifier::external_type_specification]
#[verifier::external_body]
#[verifier::reject_recursive_types(T)]
#[verifier::reject_recursive_types(R)]
#[verifier::reject_recursive_types(C)]
#[verifier::reject_recursive_types(S)]
pub struct ExMatrix<T, R, C, S>(nalgebra::Matrix<T, R, C, S>);

/// `nalgebra::Const`, the type-level dimension of a statically sized matrix.
#[verifier::external_type_specification]
#[verifier::external_body]
pub struct ExConst<const R: usize>(nalgebra::Const<R>);

/// `nalgebra::ArrayStorage`, the storage of a statically sized matrix, opaque to Verus.
#[verifier::external_type_specification]
#[verifier::external_body]
#[verifier::reject_recursive_types(T)]
pub struct ExArrayStorage<T, const R: usize, const C: usize>(nalgebra::ArrayStorage<T, R, C>);

/// The inputs `vals[0], ..., vals[N - 1]` seeded as the `N` tracked
/// variables: entry `k` is `Dual::var(vals[k], k)`.
pub fn seed<
    T: Float + Add<Output = T> + Sub<Output = T> + Mul<Output = T> + Div<Output = T> + Neg<Output = T>,
    const N: usize,
>(vals: [T; N]) -> (r: [Dual<T, N>; N])
    ensures
        forall|k: int| 0 <= k < N ==> variable_result(vals[k], k, N as nat, #[trigger] r[k]@),
{
    let filler = Dual::new(zero_of::<T>(), vals);
    let mut out = [filler; N];
    let mut k: usize = 0;
    while k < N
        invariant
            k <= N,
            forall|j: int| 0 <= j < k ==> variable_result(vals[j], j, N as nat, #[trigger] out[j]@),
        decreases N - k,
    {
        out[k] = Dual::var(vals[k], k);
        k = k + 1;
    }
    out
}


/// `nalgebra::SVector::<T, D>::from`: the column vector whose entries are
/// `entries`.  The contents of the vector are not stated: Verus sees an
/// `SVector` as opaque.
#[verifier::external_body]
fn vector_from_array<T: Scalar, const D: usize>(entries: [T; D]) -> SVector<T, D> {
    SVector::from(entries)
}

/// `nalgebra::SMatrix::<T, R, C>::from`: the matrix whose column `j` is
/// `columns[j]` (nalgebra stores matrices column by column).  The contents of
/// the matrix are not stated: Verus sees an `SMatrix` as opaque.
#[verifier::external_body]
fn matrix_from_columns<T: Scalar, const R: usize, const C: usize>(
    columns: [[T; R]; C],
) -> SMatrix<T, R, C> {
    SMatrix::from(columns)
}

/// `v` came back from nalgebra's `SVector::from` on `entries`: the vector
/// whose entry `i` is `entries[i]`.
pub closed spec fn is_vector_from<T: Scalar, const D: usize>(entries: [T; D], v: SVector<T, D>) -> bool {
    call_ensures(vector_from_array::<T, D>, (entries,), v)
}

/// `m` came back from nalgebra's `SMatrix::from` on `columns`: the matrix
/// whose entry `(i, j)` is `columns[j][i]`.
pub closed spec fn is_matrix_from<T: Scalar, const R: usize, const C: usize>(
    columns: [[T; R]; C],
    m: SMatrix<T, R, C>,
) -> bool {
    call_ensures(matrix_from_columns::<T, R, C>, (columns,), m)
}

/// `values[i]` is the value of residual `i`, and `columns[j][i]` its partial
/// derivative with respect to parameter `j`.
pub open spec fn are_jacobian_entries<T, const N: usize, const M: usize>(
    outputs: [Dual<T, N>; M],
    values: [T; M],
    columns: [[T; M]; N],
) -> bool {
    &&& forall|i: int| 0 <= i < M ==> values[i] == (#[trigger] outputs[i])@.value
    &&& forall|i: int, j: int|
        0 <= i < M && 0 <= j < N ==> (#[trigger] columns[j])[i] == (#[trigger] outputs[i])@.grad[j]
}

/// What `jacobian` returns on `outputs`: nalgebra's vector of the values and
/// nalgebra's matrix of the partial derivatives, built from the entries of
/// `outputs`.
pub open spec fn computes_jacobian<T: Scalar, const N: usize, const M: usize>(
    outputs: [Dual<T, N>; M],
    r: (SVector<T, M>, SMatrix<T, M, N>),
) -> bool {
    exists|values: [T; M], columns: [[T; M]; N]|
        #![trigger is_vector_from(values, r.0), is_matrix_from(columns, r.1)]
        are_jacobian_entries(outputs, values, columns) && is_vector_from(values, r.0)
            && is_matrix_from(columns, r.1)
}

/// The entries of the value vector and of the Jacobian of `M` residuals in
/// `N` parameters, column by column: `values[i]` is the value of residual
/// `i`, and `columns[j][i]` its partial derivative with respect to parameter `j`.
pub fn jacobian_entries<T: Float + Add<Output = T>, const N: usize, const M: usize>(
    outputs: &[Dual<T, N>; M],
) -> (r: ([T; M], [[T; M]; N]))
    ensures
        forall|i: int| 0 <= i < M ==> r.0[i] == (#[trigger] outputs[i])@.value,
        forall|i: int, j: int|
            0 <= i < M && 0 <= j < N ==> (#[trigger] r.1[j])[i] == (#[trigger] outputs[i])@.grad[j],
{
    let z = zero_of::<T>();
    let mut values = [z; M];
    let mut columns = [[z; M]; N];
    let mut i: usize = 0;
    while i < M
        invariant
            i <= M,
            forall|k: int| 0 <= k < i ==> values[k] == (#[trigger] outputs[k])@.value,
            forall|k: int, j: int|
                0 <= k < i && 0 <= j < N ==> (#[trigger] columns[j])[k] == (#[trigger] outputs[k])@.grad[j],
        decreases M - i,
    {
        let d = outputs[i];
        values[i] = d.value();
        let g = d.grad();
        let mut j: usize = 0;
        while j < N
            invariant
                i < M,
                j <= N,
                d == outputs[i as int],
                g@ == d@.grad,
                forall|k: int| 0 <= k < i + 1 ==> values[k] == (#[trigger] outputs[k])@.value,
                forall|k: int, l: int|
                    0 <= k < i && 0 <= l < N ==> (#[trigger] columns[l])[k] == (#[trigger] outputs[k])@.grad[l],
                forall|l: int| 0 <= l < j ==> (#[trigger] columns[l])[i as int] == d@.grad[l],
            decreases N - j,
        {
            let mut col = columns[j];
            col[i] = g[j];
            columns[j] = col;
            j = j + 1;
        }
        i = i + 1;
    }
    (values, columns)
}

/// Converts the outputs of a residual function, evaluated once on inputs
/// seeded as `Dual<T, N>` variables, into a value vector and a Jacobian matrix.
///
/// `N` = number of parameters, `M` = number of residuals, both fixed at compile time
///
/// The vector is nalgebra's vector of the residuals' values, and the matrix
/// nalgebra's matrix whose entry `(i, j)` is the partial derivative of
/// residual `i` with respect to parameter `j`.
pub fn jacobian<T: Float + Scalar + Add<Output = T>, const N: usize, const M: usize>(
    outputs: [Dual<T, N>; M],
) -> (r: (SVector<T, M>, SMatrix<T, M, N>))
    ensures
        computes_jacobian(outputs, r),
{
    let (values, columns) = jacobian_entries(&outputs);
    let v = vector_from_array(values);
    let m = matrix_from_columns(columns);
    let r = (v, m);
    proof {
        assert(are_jacobian_entries(outputs, values, columns));
        assert(is_vector_from(values, r.0));
        assert(is_matrix_from(columns, r.1));
    }
    r
}

} // verus!
