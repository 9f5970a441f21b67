use core_diff::dual::{acos, asin, atan2, cos, exp, ln, powf, sin, sqrt, tan, Dual};
use core_diff::jacobian::{jacobian, jacobian_entries, seed};

#[test]
fn integer_sum_and_difference_are_componentwise() {
    let a = Dual::new(3i64, [1, 0]);
    let b = Dual::new(5i64, [0, 1]);
    let s = a + b;
    assert_eq!(s.value(), 8);
    assert_eq!(s.grad(), [1, 1]);
    let d = a - b;
    assert_eq!(d.value(), -2);
    assert_eq!(d.grad(), [1, -1]);
}

#[test]
fn integer_product_rule() {
    // (a*b)' = a'*b + a*b'
    let a = Dual::new(3i64, [1, 2]);
    let b = Dual::new(5i64, [4, -1]);
    let p = a * b;
    assert_eq!(p.value(), 15);
    assert_eq!(p.grad(), [1 * 5 + 3 * 4, 2 * 5 + 3 * -1]);
}

#[test]
fn integer_quotient_rule() {
    // (a/b)' = (a'*b - a*b') / (b*b)
    let a = Dual::new(100i64, [20, 5]);
    let b = Dual::new(10i64, [1, 0]);
    let q = a / b;
    assert_eq!(q.value(), 10);
    assert_eq!(q.grad(), [1, 0]);
}

#[test]
fn integer_negation() {
    let a = Dual::new(3i64, [1, -7]);
    let n = -a;
    assert_eq!(n.value(), -3);
    assert_eq!(n.grad(), [-1, 7]);
}

#[test]
fn chain_scales_every_partial_derivative() {
    let a = Dual::new(2.0, [1.0, 3.0]);
    let r = a.chain(7.0, 2.0);
    assert_eq!(r.value(), 7.0);
    assert_eq!(r.grad(), [2.0, 6.0]);
}

#[test]
fn adding_a_constant_keeps_the_gradient() {
    let x = Dual::new(1.5, [2.0, -1.0]);
    let k: Dual<f64, 2> = Dual::constant(4.0);
    assert_eq!((x + k).grad(), [2.0, -1.0]);
    assert_eq!((k + x).grad(), [2.0, -1.0]);
    assert_eq!((x + k).value(), 5.5);
}

#[test]
fn square_of_a_variable_has_derivative_two_x() {
    let x: Dual<f64, 2> = Dual::var(3.0, 1);
    let y = x * x;
    assert_eq!(y.value(), 9.0);
    assert_eq!(y.grad()[1], 6.0);
}

#[test]
fn sum_of_two_variables_has_unit_partials() {
    let x: Dual<f64, 3> = Dual::var(2.0, 0);
    let y: Dual<f64, 3> = Dual::var(5.0, 2);
    let s = x + y;
    assert_eq!(s.value(), 7.0);
    assert_eq!(s.grad(), [1.0, 0.0, 1.0]);
}

#[test]
fn variable_is_a_unit_vector() {
    let x: Dual<f64, 4> = Dual::var(-1.25, 2);
    assert_eq!(x.value(), -1.25);
    assert_eq!(x.grad(), [0.0, 0.0, 1.0, 0.0]);
}

#[test]
fn constant_without_tracked_variables() {
    let c: Dual<f64, 0> = Dual::constant(1.0);
    assert_eq!(c.value(), 1.0);
    assert_eq!(c.grad().len(), 0);
}

#[test]
fn exp_derivative_factor_is_its_value() {
    let x: Dual<f64, 1> = Dual::var(1.3, 0);
    let y = x.exp();
    assert_eq!(y.grad()[0], y.value());
}

#[test]
fn sqrt_derivative_is_half_the_inverse_root() {
    let x: Dual<f64, 2> = Dual::new(9.0, [1.0, 2.0]);
    let y = x.sqrt();
    assert_eq!(y.value(), 3.0);
    assert_eq!(y.grad(), [1.0 / 6.0, 2.0 / 6.0]);
}

#[test]
fn free_functions_agree_with_methods() {
    let x: Dual<f64, 2> = Dual::new(0.3, [1.0, -2.0]);
    let y: Dual<f64, 2> = Dual::new(1.7, [0.5, 0.25]);
    assert_eq!(sin(x), x.sin());
    assert_eq!(cos(x), x.cos());
    assert_eq!(exp(x), x.exp());
    assert_eq!(ln(y), y.ln());
    assert_eq!(powf(y, 2.5), y.powf(2.5));
    assert_eq!(sqrt(y), y.sqrt());
    assert_eq!(tan(x), x.tan());
    assert_eq!(asin(x), x.asin());
    assert_eq!(acos(x), x.acos());
    assert_eq!(atan2(x, y), x.atan2(y));
}

#[test]
fn cos_derivative_is_minus_sin() {
    let x: Dual<f64, 1> = Dual::var(0.7, 0);
    let y = x.cos();
    assert_eq!(y.value(), 0.7_f64.cos());
    assert_eq!(y.grad()[0], 1.0 * -(0.7_f64.sin()));
}

#[test]
fn seed_three_variables() {
    let [a, b, c] = seed([1.0, 2.0, 3.0]);
    assert_eq!(a.value(), 1.0);
    assert_eq!(a.grad(), [1.0, 0.0, 0.0]);
    assert_eq!(b.value(), 2.0);
    assert_eq!(b.grad(), [0.0, 1.0, 0.0]);
    assert_eq!(c.value(), 3.0);
    assert_eq!(c.grad(), [0.0, 0.0, 1.0]);
}

#[test]
fn jacobian_entries_are_values_and_gradient_columns() {
    let outputs = [Dual::new(7.0, [4.0, 1.0]), Dual::new(-2.0, [0.5, 3.0]), Dual::new(1.0, [9.0, 8.0])];
    let (values, columns) = jacobian_entries(&outputs);
    assert_eq!(values, [7.0, -2.0, 1.0]);
    assert_eq!(columns, [[4.0, 0.5, 9.0], [1.0, 3.0, 8.0]]);
}

#[test]
fn jacobian_matrix_is_row_per_residual() {
    let outputs = [Dual::new(7.0, [4.0, 1.0]), Dual::new(-2.0, [0.5, 3.0]), Dual::new(1.0, [9.0, 8.0])];
    let (value, jac) = jacobian(outputs);
    assert_eq!(value[2], 1.0);
    assert_eq!(jac[(0, 1)], 1.0);
    assert_eq!(jac[(1, 0)], 0.5);
    assert_eq!(jac[(2, 1)], 8.0);
    assert_eq!(jac.nrows(), 3);
    assert_eq!(jac.ncols(), 2);
}

#[test]
fn jacobian_of_no_residuals() {
    let outputs: [Dual<f64, 2>; 0] = [];
    let (values, columns) = jacobian_entries(&outputs);
    assert_eq!(values.len(), 0);
    assert_eq!(columns, [[], []]);
}

#[test]
fn integer_sum_and_product_commute() {
    let a = Dual::new(3i64, [1, 2, -4]);
    let b = Dual::new(-5i64, [4, -1, 6]);
    assert_eq!(a + b, b + a);
    assert_eq!(a * b, b * a);
    assert_eq!((a * b).grad(), [1 * -5 + 3 * 4, 2 * -5 + 3 * -1, -4 * -5 + 3 * 6]);
}

#[test]
fn difference_is_sum_of_negation() {
    let a = Dual::new(3i64, [1, 2, -4]);
    let b = Dual::new(-5i64, [4, -1, 6]);
    assert_eq!(a - b, a + (-b));
}

#[test]
fn double_negation_gives_back() {
    let a = Dual::new(3i64, [1, -2, 0]);
    assert_eq!(-(-a), a);
    let f = Dual::new(0.25, [1.5, -3.0]);
    assert_eq!(-(-f), f);
}

#[test]
fn adding_constant_zero_is_identity() {
    let a = Dual::new(2.5, [1.0, -0.5, 4.0]);
    let zero: Dual<f64, 3> = Dual::constant(0.0);
    assert_eq!(a + zero, a);
    assert_eq!(zero + a, a);
}

#[test]
fn multiplying_by_constant_one_is_identity() {
    let a = Dual::new(2.5, [1.0, -0.5, 4.0]);
    let one: Dual<f64, 3> = Dual::constant(1.0);
    assert_eq!(a * one, a);
    assert_eq!(one * a, a);
}

#[test]
fn atan2_gradient_is_odd_in_the_ordinate() {
    let y = Dual::new(3.0, [1.0, 0.5]);
    let x = Dual::new(4.0, [-2.0, 1.0]);
    assert_eq!((-y).atan2(x).grad(), (-(y.atan2(x))).grad());
    assert_eq!((-y).atan2(x).grad(), [-(4.0 * 1.0 - 3.0 * -2.0) / 25.0, -(4.0 * 0.5 - 3.0 * 1.0) / 25.0]);
}
