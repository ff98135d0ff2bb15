//! The elementwise square.

use vstd::prelude::*;

use crate::cell::function::{BackwardError, Function};
use crate::cell::scalar::Scalar;
use crate::cell::tensor::{shapes_equal, Tensor};
use crate::cell::variable::Variable;

verus! {

/// One application of the elementwise square `forward(x) = x * x`, whose
/// local gradient is `gy * x * 2`. Mathematically the same operation as
/// a power with exponent two, implemented independently for the simpler
/// derivative form.
#[derive(Clone)]
pub struct Square<T> {
    /// The input remembered by the latest application.
    pub input: Option<Tensor<T>>,
    /// The forward result, when remembered explicitly.
    pub output: Option<Tensor<T>>,
}

impl<T> Square<T> {
    /// A fresh application: nothing is remembered yet.
    pub fn new() -> (f: Self)
        ensures
            f.input is None,
            f.output is None,
    {
        Self { input: None, output: None }
    }
}

impl<T: Scalar> Function<T> for Square<T> {
    open spec fn remembered_input(&self) -> Option<(Seq<usize>, Seq<T>)> {
        match self.input {
            Some(t) => Some((t.shape@, t.data@)),
            None => None,
        }
    }

    open spec fn remembered_output(&self) -> Option<(Seq<usize>, Seq<T>)> {
        match self.output {
            Some(t) => Some((t.shape@, t.data@)),
            None => None,
        }
    }

    open spec fn well_formed(&self) -> bool {
        &&& match self.input {
            Some(t) => t.wf(),
            None => true,
        }
        &&& match self.output {
            Some(t) => t.wf(),
            None => true,
        }
    }

    open spec fn forward_elem(&self, x: T) -> T {
        x.times_spec(x)
    }

    open spec fn backward_elem(&self, x: T, gy: T) -> T {
        gy.times_spec(x).times_spec(T::of_usize_spec(2))
    }

    fn forward(&mut self, x: &Tensor<T>) -> (y: Tensor<T>) {
        let mut data: Vec<T> = Vec::new();
        let mut i: usize = 0;
        while i < x.data.len()
            invariant
                i <= x.data@.len(),
                data@.len() == i,
                forall|j: int| 0 <= j < i ==> data@[j] == x.data@[j].times_spec(x.data@[j]),
            decreases x.data@.len() - i,
        {
            let e = x.data[i].times(&x.data[i]);
            data.push(e);
            i = i + 1;
        }
        Tensor { shape: x.shape_duplicate(), data }
    }

    fn backward(&mut self, gy: &Tensor<T>) -> (r: Result<Tensor<T>, BackwardError>) {
        let x = match &self.input {
            Some(t) => t.duplicate(),
            None => {
                return Err(BackwardError::Empty);
            },
        };
        if !shapes_equal(&gy.shape, &x.shape) {
            return Err(BackwardError::ShapeMismatch);
        }
        let two = T::of_usize(2);
        let mut data: Vec<T> = Vec::new();
        let mut i: usize = 0;
        while i < x.data.len()
            invariant
                i <= x.data@.len(),
                gy.data@.len() == x.data@.len(),
                data@.len() == i,
                two == T::of_usize_spec(2),
                forall|j: int|
                    0 <= j < i ==> data@[j] == gy.data@[j].times_spec(x.data@[j]).times_spec(
                        T::of_usize_spec(2),
                    ),
            decreases x.data@.len() - i,
        {
            let g = gy.data[i].times(&x.data[i]).times(&two);
            data.push(g);
            i = i + 1;
        }
        Ok(Tensor { shape: x.shape_duplicate(), data })
    }

    fn remember_input(&mut self, input: &Variable<Tensor<T>, Self>) {
        self.input = Some(input.data.duplicate());
    }

    fn remember_output(&mut self, output: &Variable<Tensor<T>, Self>) {
        self.output = Some(output.data.duplicate());
    }
}

} // verus!
