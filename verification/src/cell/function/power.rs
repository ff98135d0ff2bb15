//! The elementwise integer power.

use vstd::prelude::*;

use crate::cell::function::{BackwardError, Function};
use crate::cell::function::square::Square;
use crate::cell::scalar::{pow_spec, pow_usize, Scalar};
use crate::cell::tensor::{shapes_equal, Tensor};
use crate::cell::variable::Variable;

verus! {

/// One application of the elementwise integer power `forward(x) = x^n`,
/// whose local gradient is `gy * x^(n-1) * n`. The exponent is fixed when
/// the application is constructed. An exponent of zero is not a special
/// case: the gradient is then `gy * x^(-1) * 0`, the correct calculus
/// result.
#[derive(Clone)]
pub struct Power<T> {
    /// The input remembered by the latest application.
    pub input: Option<Tensor<T>>,
    /// The forward result, when remembered explicitly.
    pub output: Option<Tensor<T>>,
    /// The exponent.
    pub n: usize,
}

impl<T> Power<T> {
    /// A fresh application of the power with exponent `n`: nothing is
    /// remembered yet.
    pub fn new(n: usize) -> (f: Self)
        ensures
            f.input is None,
            f.output is None,
            f.n == n,
    {
        Self { input: None, output: None, n }
    }
}

impl<T: Scalar> Function<T> for Power<T> {
    open spec fn remembered_input(&self) -> Option<(Seq<usize>, Seq<T>)> {
        match self.input {
            Some(t) => Some((t.shape@, t.data@)),
            None => None,
        }
    }

    open spec fn remembered_output(&self) -> Option<(Seq<usize>, Seq<T>)> {
        match self.output {
            Some(t) => Some((t.shape@, t.data@)),
            None => None,
        }
    }

    open spec fn well_formed(&self) -> bool {
        &&& match self.input {
            Some(t) => t.wf(),
            None => true,
        }
        &&& match self.output {
            Some(t) => t.wf(),
            None => true,
        }
    }

    open spec fn forward_elem(&self, x: T) -> T {
        pow_spec(x, self.n as int)
    }

    open spec fn backward_elem(&self, x: T, gy: T) -> T {
        gy.times_spec(pow_spec(x, self.n as int - 1)).times_spec(T::of_usize_spec(self.n))
    }

    fn forward(&mut self, x: &Tensor<T>) -> (y: Tensor<T>) {
        let n = self.n;
        let mut data: Vec<T> = Vec::new();
        let mut i: usize = 0;
        while i < x.data.len()
            invariant
                i <= x.data@.len(),
                data@.len() == i,
                forall|j: int| 0 <= j < i ==> data@[j] == pow_spec(x.data@[j], n as int),
            decreases x.data@.len() - i,
        {
            let e = pow_usize(&x.data[i], n);
            data.push(e);
            i = i + 1;
        }
        Tensor { shape: x.shape_duplicate(), data }
    }

    fn backward(&mut self, gy: &Tensor<T>) -> (r: Result<Tensor<T>, BackwardError>) {
        let n = self.n;
        let x = match &self.input {
            Some(t) => t.duplicate(),
            None => {
                return Err(BackwardError::Empty);
            },
        };
        if !shapes_equal(&gy.shape, &x.shape) {
            return Err(BackwardError::ShapeMismatch);
        }
        let scale = T::of_usize(n);
        let mut data: Vec<T> = Vec::new();
        let mut i: usize = 0;
        while i < x.data.len()
            invariant
                i <= x.data@.len(),
                gy.data@.len() == x.data@.len(),
                data@.len() == i,
                scale == T::of_usize_spec(n),
                forall|j: int|
                    0 <= j < i ==> data@[j] == gy.data@[j].times_spec(
                        pow_spec(x.data@[j], n as int - 1),
                    ).times_spec(T::of_usize_spec(n)),
            decreases x.data@.len() - i,
        {
            let p = if n == 0 {
                let r = x.data[i].recip();
                proof {
                    assert(pow_spec(x.data@[i as int], 1) == x.data@[i as int]);
                    assert(pow_spec(x.data@[i as int], -1) == x.data@[i as int].recip_spec());
                }
                r
            } else {
                pow_usize(&x.data[i], n - 1)
            };
            let g = gy.data[i].times(&p).times(&scale);
            data.push(g);
            i = i + 1;
        }
        Ok(Tensor { shape: x.shape_duplicate(), data })
    }

    fn remember_input(&mut self, input: &Variable<Tensor<T>, Self>) {
        self.input = Some(input.data.duplicate());
    }

    fn remember_output(&mut self, output: &Variable<Tensor<T>, Self>) {
        self.output = Some(output.data.duplicate());
    }
}

/// The power with exponent two and the square implement the same
/// mathematical function: on every element they agree on the forward
/// value, and for every upstream gradient element they agree on the local
/// gradient.
pub proof fn lemma_power_two_matches_square<T: Scalar>(p: Power<T>, s: Square<T>, x: T, gy: T)
    requires
        p.n == 2,
    ensures
        p.forward_elem(x) == s.forward_elem(x),
        p.backward_elem(x, gy) == s.backward_elem(x, gy),
{
    assert(pow_spec(x, 1) == x);
    assert(pow_spec(x, 2) == x.times_spec(x));
}

} // verus!
