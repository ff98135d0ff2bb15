//! The contract shared by all elementary tensor functions.
//!
//! A value implementing [`Function`] stands for one *application* of an
//! elementary operation, not for the operation itself: it remembers the
//! input of its latest application so that the local gradient can be
//! computed later. A fresh instance remembers nothing; one `call` moves it
//! to the ready state; a second `call` silently overwrites the remembered
//! input, so a pending backward pass then differentiates at the newer one.

pub mod exp;
pub mod power;
pub mod square;

use vstd::prelude::*;

use crate::cell::scalar::Scalar;
use crate::cell::tensor::Tensor;
use crate::cell::variable::Variable;

verus! {

/// Why a backward pass could not run.
#[derive(Clone, Copy, Debug, PartialEq, Eq)]
pub enum BackwardError {
    /// The function application has never been given an input: there is
    /// no remembered value to differentiate at. This reports a misuse of
    /// the call protocol, not bad data.
    Empty,
    /// The upstream gradient's shape does not match the remembered
    /// input's shape. This reports bad data.
    ShapeMismatch,
}

/// One application of an elementary tensor operation.
///
/// `forward` and `backward` work elementwise; which value they compute for
/// one element is given by the spec-level `forward_elem` and
/// `backward_elem`, which each implementing operation fixes.
pub trait Function<T: Scalar>: Sized {
    /// The shape and elements of the input remembered for the next
    /// backward pass, if any.
    spec fn remembered_input(&self) -> Option<(Seq<usize>, Seq<T>)>;

    /// The shape and elements of the remembered forward result, if any.
    spec fn remembered_output(&self) -> Option<(Seq<usize>, Seq<T>)>;

    /// Whatever this application remembers is a well-formed tensor.
    spec fn well_formed(&self) -> bool;

    /// The value the operation computes for one input element.
    spec fn forward_elem(&self, x: T) -> T;

    /// The local chain rule for one element: the downstream gradient at
    /// the remembered input element `x`, given the upstream gradient
    /// element `gy`.
    spec fn backward_elem(&self, x: T, gy: T) -> T;

    /// Computes the forward value, elementwise over `x`, leaving the
    /// remembered state untouched.
    fn forward(&mut self, x: &Tensor<T>) -> (y: Tensor<T>)
        ensures
            *final(self) == *old(self),
            y.shape@ == x.shape@,
            y.data@.len() == x.data@.len(),
            forall|i: int|
                0 <= i < x.data@.len() ==> y.data@[i] == old(self).forward_elem(x.data@[i]),
    ;

    /// Multiplies the upstream gradient by the operation's derivative at
    /// the remembered input, elementwise. Fails with
    /// [`BackwardError::Empty`] exactly when no input is remembered, and
    /// with [`BackwardError::ShapeMismatch`] exactly when the upstream
    /// gradient's shape differs from the remembered input's.
    fn backward(&mut self, gy: &Tensor<T>) -> (r: Result<Tensor<T>, BackwardError>)
        requires
            old(self).well_formed(),
            gy.wf(),
        ensures
            *final(self) == *old(self),
            match old(self).remembered_input() {
                None => r == Err::<Tensor<T>, BackwardError>(BackwardError::Empty),
                Some(x) => {
                    if gy.shape@ != x.0 {
                        r == Err::<Tensor<T>, BackwardError>(BackwardError::ShapeMismatch)
                    } else {
                        &&& r is Ok
                        &&& r->Ok_0.wf()
                        &&& r->Ok_0.shape@ == x.0
                        &&& r->Ok_0.data@.len() == x.1.len()
                        &&& forall|i: int|
                            0 <= i < x.1.len()
                                ==> r->Ok_0.data@[i] == old(self).backward_elem(x.1[i], gy.data@[i])
                    }
                },
            },
    ;

    /// Stores a value-copy of the input node's tensor, sufficient to
    /// evaluate the derivative later. A previously remembered input is
    /// overwritten.
    fn remember_input(&mut self, input: &Variable<Tensor<T>, Self>)
        requires
            old(self).well_formed(),
            input.data.wf(),
        ensures
            final(self).well_formed(),
            final(self).remembered_input() == Some((input.data.shape@, input.data.data@)),
            final(self).remembered_output() == old(self).remembered_output(),
            forall|a: T| #[trigger] final(self).forward_elem(a) == old(self).forward_elem(a),
            forall|a: T, g: T|
                #[trigger] final(self).backward_elem(a, g) == old(self).backward_elem(a, g),
    ;

    /// Stores a value-copy of the forward result, for operations whose
    /// derivative is expressed in terms of the output. An extension
    /// point: the bundled operations differentiate at the input instead.
    fn remember_output(&mut self, output: &Variable<Tensor<T>, Self>)
        requires
            old(self).well_formed(),
            output.data.wf(),
        ensures
            final(self).well_formed(),
            final(self).remembered_output() == Some((output.data.shape@, output.data.data@)),
            final(self).remembered_input() == old(self).remembered_input(),
            forall|a: T| #[trigger] final(self).forward_elem(a) == old(self).forward_elem(a),
            forall|a: T, g: T|
                #[trigger] final(self).backward_elem(a, g) == old(self).backward_elem(a, g),
    ;

    /// The one blessed entry point: computes the forward value of the
    /// input node's tensor, wraps it as a fresh leaf node, and remembers
    /// the input for the backward pass. Whatever was remembered before is
    /// overwritten, so a later backward pass differentiates at this
    /// input.
    fn call(&mut self, input: &Variable<Tensor<T>, Self>) -> (output: Variable<Tensor<T>, Self>)
        requires
            old(self).well_formed(),
            input.data.wf(),
        ensures
            final(self).well_formed(),
            output.grad is None,
            output.creater is None,
            output.data.wf(),
            output.data.shape@ == input.data.shape@,
            output.data.data@.len() == input.data.data@.len(),
            forall|i: int|
                0 <= i < input.data.data@.len()
                    ==> output.data.data@[i] == old(self).forward_elem(input.data.data@[i]),
            final(self).remembered_input() == Some((input.data.shape@, input.data.data@)),
            final(self).remembered_output() == old(self).remembered_output(),
            forall|a: T| #[trigger] final(self).forward_elem(a) == old(self).forward_elem(a),
            forall|a: T, g: T|
                #[trigger] final(self).backward_elem(a, g) == old(self).backward_elem(a, g),
    {
        let x = &input.data;
        let y = self.forward(x);
        let output = Variable::new(y);
        self.remember_input(input);
        output
    }
}

} // verus!
