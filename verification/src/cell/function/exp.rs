//! The elementwise natural exponential.

use vstd::prelude::*;

use crate::cell::function::{BackwardError, Function};
use crate::cell::scalar::Scalar;
use crate::cell::tensor::{shapes_equal, Tensor};
use crate::cell::variable::Variable;

verus! {

/// One application of the elementwise natural exponential
/// `forward(x) = e^x`, whose local gradient is `gy * e^x`. The input must
/// be re-exponentiated at backward time rather than cached from the
/// forward pass.
#[derive(Clone)]
pub struct Exp<T> {
    /// The input remembered by the latest application.
    pub input: Option<Tensor<T>>,
    /// The forward result, when remembered explicitly.
    pub output: Option<Tensor<T>>,
}

impl<T> Exp<T> {
    /// A fresh application: nothing is remembered yet.
    pub fn new() -> (f: Self)
        ensures
            f.input is None,
            f.output is None,
    {
        Self { input: None, output: None }
    }
}

impl<T: Scalar> Function<T> for Exp<T> {
    open spec fn remembered_input(&self) -> Option<(Seq<usize>, Seq<T>)> {
        match self.input {
            Some(t) => Some((t.shape@, t.data@)),
            None => None,
        }
    }

    open spec fn remembered_output(&self) -> Option<(Seq<usize>, Seq<T>)> {
        match self.output {
            Some(t) => Some((t.shape@, t.data@)),
            None => None,
        }
    }

    open spec fn well_formed(&self) -> bool {
        &&& match self.input {
            Some(t) => t.wf(),
            None => true,
        }
        &&& match self.output {
            Some(t) => t.wf(),
            None => true,
        }
    }

    open spec fn forward_elem(&self, x: T) -> T {
        x.exp_spec()
    }

    open spec fn backward_elem(&self, x: T, gy: T) -> T {
        gy.times_spec(x.exp_spec())
    }

    fn forward(&mut self, x: &Tensor<T>) -> (y: Tensor<T>) {
        let mut data: Vec<T> = Vec::new();
        let mut i: usize = 0;
        while i < x.data.len()
            invariant
                i <= x.data@.len(),
                data@.len() == i,
                forall|j: int| 0 <= j < i ==> data@[j] == x.data@[j].exp_spec(),
            decreases x.data@.len() - i,
        {
            let e = x.data[i].exp();
            data.push(e);
            i = i + 1;
        }
        Tensor { shape: x.shape_duplicate(), data }
    }

    fn backward(&mut self, gy: &Tensor<T>) -> (r: Result<Tensor<T>, BackwardError>) {
        let x = match &self.input {
            Some(t) => t.duplicate(),
            None => {
                return Err(BackwardError::Empty);
            },
        };
        if !shapes_equal(&gy.shape, &x.shape) {
            return Err(BackwardError::ShapeMismatch);
        }
        let mut data: Vec<T> = Vec::new();
        let mut i: usize = 0;
        while i < x.data.len()
            invariant
                i <= x.data@.len(),
                gy.data@.len() == x.data@.len(),
                data@.len() == i,
                forall|j: int|
                    0 <= j < i ==> data@[j] == gy.data@[j].times_spec(x.data@[j].exp_spec()),
            decreases x.data@.len() - i,
        {
            let ex = x.data[i].exp();
            let g = gy.data[i].times(&ex);
            data.push(g);
            i = i + 1;
        }
        Ok(Tensor { shape: x.shape_duplicate(), data })
    }

    fn remember_input(&mut self, input: &Variable<Tensor<T>, Self>) {
        self.input = Some(input.data.duplicate());
    }

    fn remember_output(&mut self, output: &Variable<Tensor<T>, Self>) {
        self.output = Some(output.data.duplicate());
    }
}

} // verus!
