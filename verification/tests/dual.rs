use core_diff::dual::Dual;

#[test]
fn dual_new_stores_value_and_gradient() {
    let d = Dual::new(3.0, [0.5]);
    assert_eq!(d.value(), 3.0);
    assert_eq!(d.grad(), [0.5]);
}

#[test]
fn dual_constant_is_zero_gradient() {
    let c: Dual<f64, 1> = Dual::constant(5.0);
    assert_eq!(c.value(), 5.0);
    assert_eq!(c.grad(), [0.0]);
}

#[test]
fn dual_variable_is_one_derivative() {
    let x: Dual<f64, 1> = Dual::var(2.0, 0);
    assert_eq!(x.value(), 2.0);
    assert_eq!(x.grad(), [1.0]);
}

#[test]
fn add_works() {
    let a = Dual::new(2.0, [1.0]);
    let b = Dual::new(3.0, [0.0]);
    let c = a + b;
    assert_eq!(c.value(), 5.0);
    assert_eq!(c.grad(), [1.0]);
}

#[test]
fn mul_works() {
    let x = Dual::new(3.0, [1.0]);
    let y = x * x; // derivative = 2*x = 6
    assert_eq!(y.value(), 9.0);
    assert_eq!(y.grad(), [6.0]);
}

#[test]
fn div_works() {
    let x = Dual::new(4.0, [1.0]);
    let y = Dual::new(2.0, [0.0]);
    let z = x / y; // derivative = (1*2 - 4*0) / 4 = 0.5
    assert_eq!(z.value(), 2.0);
    assert_eq!(z.grad(), [0.5]);
}

#[test]
fn neg_works() {
    let x = Dual::new(4.0, [1.0]);
    let y = -x;
    assert_eq!(y.value(), -4.0);
    assert_eq!(y.grad(), [-1.0]);
}

#[test]
fn test_sin() {
    let x: Dual<f64, 1> = Dual::var(2.0, 0);
    let y = x.sin();
    assert!((y.value() - 2.0_f64.sin()).abs() < 1e-12);
    assert!((y.grad()[0] - 2.0_f64.cos()).abs() < 1e-12);
}

#[test]
fn test_cos() {
    let x: Dual<f64, 1> = Dual::var(2.0, 0);
    let y = x.cos();
    assert!((y.value() - 2.0_f64.cos()).abs() < 1e-12);
    assert!((y.grad()[0] + 2.0_f64.sin()).abs() < 1e-12); // derivative = -sin(x)
}

#[test]
fn test_exp() {
    let x: Dual<f64, 1> = Dual::var(2.0, 0);
    let y = x.exp();
    assert!((y.value() - 2.0_f64.exp()).abs() < 1e-12);
    assert!((y.grad()[0] - 2.0_f64.exp()).abs() < 1e-12);
}

#[test]
fn test_ln() {
    let x: Dual<f64, 1> = Dual::var(2.0, 0);
    let y = x.ln();
    assert!((y.value() - 2.0_f64.ln()).abs() < 1e-12);
    assert!((y.grad()[0] - 0.5).abs() < 1e-12); // derivative = 1/x
}

#[test]
fn test_powf() {
    let x: Dual<f64, 1> = Dual::var(2.0, 0);
    let y = x.powf(3.0);
    assert_eq!(y.value(), 8.0);
    assert_eq!(y.grad()[0], 3.0 * 2.0_f64.powf(2.0)); // 3 * x^2
}

#[test]
fn test_polynomial() {
    // f(x) = 1 + x + 2x^2 at x=1
    let x: Dual<f64, 1> = Dual::var(1.0, 0);
    let y = Dual::constant(1.0) + x + Dual::constant(2.0) * x * x;
    assert_eq!(y.value(), 4.0);
    assert_eq!(y.grad(), [5.0]);
}

#[test]
fn test_three_pow_x_plus_cos() {
    let x: Dual<f64, 1> = Dual::var(2.0, 0);
    let ln3 = Dual::constant(3.0_f64.ln());
    let three_pow_x = (x * ln3).exp();
    let y = three_pow_x + x.cos();

    assert!((y.value() - 8.583853163452858).abs() < 1e-12);
    assert!((y.grad()[0] - 8.978213171187306).abs() < 1e-12);
}

#[test]
fn multivariable_gradient_of_x_times_y() {
    // f(x, y) = x * y + sin(x) at (x, y) = (2, 3)
    // df/dx = y + cos(x), df/dy = x
    let x: Dual<f64, 2> = Dual::var(2.0, 0);
    let y: Dual<f64, 2> = Dual::var(3.0, 1);

    let f = x * y + x.sin();

    assert!((f.value() - (2.0 * 3.0 + 2.0_f64.sin())).abs() < 1e-12);
    assert!((f.grad()[0] - (3.0 + 2.0_f64.cos())).abs() < 1e-12);
    assert!((f.grad()[1] - 2.0).abs() < 1e-12);
}

#[test]
fn test_sqrt() {
    let x: Dual<f64, 1> = Dual::var(4.0, 0);
    let y = x.sqrt();
    assert!((y.value() - 2.0).abs() < 1e-12);
    assert!((y.grad()[0] - 0.25).abs() < 1e-12); // derivative = 1/(2*sqrt(x)) = 0.25
}

#[test]
fn test_tan() {
    let x: Dual<f64, 1> = Dual::var(0.5, 0);
    let y = x.tan();
    assert!((y.value() - 0.5_f64.tan()).abs() < 1e-12);
    let expected_deriv = 1.0 / (0.5_f64.cos() * 0.5_f64.cos());
    assert!((y.grad()[0] - expected_deriv).abs() < 1e-12);
}

#[test]
fn test_asin() {
    let x: Dual<f64, 1> = Dual::var(0.5, 0);
    let y = x.asin();
    assert!((y.value() - 0.5_f64.asin()).abs() < 1e-12);
    let expected_deriv = 1.0 / (1.0_f64 - 0.25).sqrt();
    assert!((y.grad()[0] - expected_deriv).abs() < 1e-12);
}

#[test]
fn test_acos() {
    let x: Dual<f64, 1> = Dual::var(0.5, 0);
    let y = x.acos();
    assert!((y.value() - 0.5_f64.acos()).abs() < 1e-12);
    let expected_deriv = -1.0 / (1.0_f64 - 0.25).sqrt();
    assert!((y.grad()[0] - expected_deriv).abs() < 1e-12);
}

#[test]
fn test_atan2() {
    // f(y, x) = atan2(y, x) at (y, x) = (3, 4)
    // df/dy = x/(x^2+y^2), df/dx = -y/(x^2+y^2)
    let y: Dual<f64, 2> = Dual::var(3.0, 0);
    let x: Dual<f64, 2> = Dual::var(4.0, 1);
    let f = y.atan2(x);

    assert!((f.value() - 3.0_f64.atan2(4.0)).abs() < 1e-12);
    assert!((f.grad()[0] - 4.0 / 25.0).abs() < 1e-12);
    assert!((f.grad()[1] - (-3.0 / 25.0)).abs() < 1e-12);
}

// A scalar operand `c` of an operator is the constant `Dual::constant(c)`.
#[test]
fn test_scalar_ops() {
    let x: Dual<f64, 1> = Dual::var(2.0, 0);

    let a = x + Dual::constant(1.0);
    assert_eq!(a.value(), 3.0);
    assert_eq!(a.grad(), [1.0]);

    let b = Dual::constant(1.0) + x;
    assert_eq!(b.value(), 3.0);
    assert_eq!(b.grad(), [1.0]);

    let c = x * Dual::constant(3.0);
    assert_eq!(c.value(), 6.0);
    assert_eq!(c.grad(), [3.0]);

    let d = Dual::constant(3.0) * x;
    assert_eq!(d.value(), 6.0);
    assert_eq!(d.grad(), [3.0]);

    let e = x - Dual::constant(0.5);
    assert_eq!(e.value(), 1.5);
    assert_eq!(e.grad(), [1.0]);

    let f = Dual::constant(10.0) - x;
    assert_eq!(f.value(), 8.0);
    assert_eq!(f.grad(), [-1.0]); // d/dx(c - x) = -1

    let g = x / Dual::constant(2.0);
    assert_eq!(g.value(), 1.0);
    assert_eq!(g.grad(), [0.5]);

    let h = Dual::constant(8.0) / x;
    assert_eq!(h.value(), 4.0);
    assert_eq!(h.grad(), [-2.0]); // d/dx(c/x) = -c/x^2 = -8/4 = -2
}
