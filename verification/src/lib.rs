//! Forward-mode automatic differentiation with dual numbers.
pub mod model;
pub mod dual;
pub mod jacobian;
pub mod laws;
mod scalar;
