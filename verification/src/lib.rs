//! A minimal reverse-mode automatic-differentiation core.
//!
//! The crate provides the mechanism of a computation graph: elementary
//! tensor operations that compute a forward value and a local gradient,
//! and a variable node that holds a value, an optional gradient, and a
//! reference to the function application that produced it.

pub mod cell;
