//! The variable node of the computation graph.

use vstd::prelude::*;

verus! {

/// One point in the computation graph: a value, an optional gradient of
/// the same conceptual shape, and an optional reference to the function
/// application that produced the value. A node whose `creater` is `None`
/// is a graph leaf.
pub struct Variable<T, F> {
    /// The value held at this node.
    pub data: T,
    /// The gradient of the eventual loss with respect to this node;
    /// absent until a backward pass fills it in.
    pub grad: Option<T>,
    /// The function application whose forward pass produced `data`;
    /// absent for leaf nodes.
    pub creater: Option<F>,
}

impl<T, F> Variable<T, F> {
    /// Wraps a raw value as a leaf node: no gradient, no creator.
    pub fn new(data: T) -> (v: Self)
        ensures
            v.data == data,
            v.grad is None,
            v.creater is None,
    {
        Self { data, grad: None, creater: None }
    }

    /// Records the function application that produced this node.
    pub fn set_creater(&mut self, func: F)
        ensures
            final(self).data == old(self).data,
            final(self).grad == old(self).grad,
            final(self).creater == Some(func),
    {
        self.creater = Some(func);
    }
}

} // verus!
