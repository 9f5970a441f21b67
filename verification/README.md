# core_diff

Forward-mode automatic differentiation with dual numbers, verified with Verus.

A `Dual<T, N>` carries a value and its `N` partial derivatives. The
arithmetic operators apply the sum, difference, product and quotient rules;
the methods `sin`, `cos`, `exp`, `ln`, `powf`, `sqrt`, `tan`, `asin`, `acos`
and `atan2` apply the chain rule, with the scalar functions taken from
`num_traits::Float`. `jacobian::seed` seeds inputs as unit vectors and
`jacobian::jacobian` collects the values and gradients of a block of
residuals into `nalgebra` vectors and matrices.

Layout of `src/`:

- `model.rs`: the mathematical model of a dual number (`DualModel`) and of
  every propagation rule, over the specifications of the scalar operators;
- `dual.rs`: the `Dual` type, its operators and functions, each with a
  contract over the model;
- `jacobian.rs`: seeding and the Jacobian;
- `laws.rs`: properties that span several operations;
- `scalar.rs`: the trusted wrappers around `num_traits::Float`.

Contracts that speak of scalar arithmetic hold for scalar types whose
operators obey their vstd specifications. vstd gives `f32` and `f64` no such
specification, so for the floating point types that the library is used with
these contracts promise nothing a verified caller could use; they are exact
for types that declare exact operators, such as the fixed-width integers
(for the arithmetic operators). The values of the transcendental functions
come from `num_traits::Float` and are not tied to their arguments by any
clause.
