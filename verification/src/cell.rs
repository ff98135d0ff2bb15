//! The building blocks of the computation graph: scalars, tensors,
//! variable nodes and the elementary tensor functions.

pub mod function;
pub mod scalar;
pub mod tensor;
pub mod variable;
