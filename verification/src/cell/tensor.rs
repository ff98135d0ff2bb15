//! An n-dimensional, dynamically shaped array, stored as a shape together
//! with its elements flattened row by row.

use vstd::prelude::*;

verus! {

/// The number of elements that a shape describes: the product of its
/// extents, taken as 1 for the empty (zero-dimensional) shape.
pub open spec fn shape_size(s: Seq<usize>) -> nat
    decreases s.len(),
{
    if s.len() == 0 {
        1
    } else {
        shape_size(s.drop_last()) * (s.last() as nat)
    }
}

/// A shape with an extent of zero describes no elements.
proof fn lemma_shape_size_zero_extent(s: Seq<usize>, i: int)
    requires
        0 <= i < s.len(),
        s[i] == 0,
    ensures
        shape_size(s) == 0,
    decreases s.len(),
{
    if i < s.len() - 1 {
        lemma_shape_size_zero_extent(s.drop_last(), i);
    } else {
        assert(s.last() == 0);
        assert(shape_size(s) == shape_size(s.drop_last()) * (s.last() as nat));
    }
}

/// Extending a shape by further extents, all positive, cannot shrink the
/// number of elements it describes.
proof fn lemma_shape_size_prefix(s: Seq<usize>, k: int)
    requires
        0 <= k <= s.len(),
        forall|j: int| k <= j < s.len() ==> s[j] >= 1,
    ensures
        shape_size(s) >= shape_size(s.subrange(0, k)),
    decreases s.len() - k,
{
    if k == s.len() {
        assert(s.subrange(0, k) =~= s);
    } else {
        lemma_shape_size_prefix(s.drop_last(), k);
        assert(s.drop_last().subrange(0, k) =~= s.subrange(0, k));
        assert(shape_size(s.drop_last()) * (s.last() as nat) >= shape_size(s.drop_last()))
            by (nonlinear_arith)
            requires
                s.last() as nat >= 1,
        ;
    }
}

/// An n-dimensional array: the extents of its axes, and its elements in
/// one flat vector, laid out row by row.
#[derive(Clone, Debug, PartialEq)]
pub struct Tensor<T> {
    /// The extent of each axis.
    pub shape: Vec<usize>,
    /// The elements, flattened row by row.
    pub data: Vec<T>,
}

impl<T> Tensor<T> {
    /// A tensor is well formed when its flat data holds exactly the
    /// number of elements its shape describes.
    pub open spec fn wf(&self) -> bool {
        self.data@.len() == shape_size(self.shape@)
    }

    /// Builds a tensor from a shape and the flat list of its elements.
    /// Returns `None` exactly when the number of elements does not match
    /// the shape.
    pub fn from_shape_vec(shape: Vec<usize>, data: Vec<T>) -> (r: Option<Self>)
        ensures
            match r {
                Some(t) => {
                    &&& t.shape@ == shape@
                    &&& t.data@ == data@
                    &&& t.wf()
                },
                None => data@.len() != shape_size(shape@),
            },
    {
        let elems = data.len();
        let mut i: usize = 0;
        while i < shape.len()
            invariant
                i <= shape@.len(),
                forall|j: int| 0 <= j < i ==> shape@[j] >= 1,
                elems as nat == data@.len(),
            decreases shape@.len() - i,
        {
            if shape[i] == 0 {
                proof {
                    lemma_shape_size_zero_extent(shape@, i as int);
                }
                if elems == 0 {
                    return Some(Tensor { shape, data });
                } else {
                    return None;
                }
            }
            i = i + 1;
        }
        let mut size: usize = 1;
        let mut k: usize = 0;
        while k < shape.len()
            invariant
                k <= shape@.len(),
                forall|j: int| 0 <= j < shape@.len() ==> shape@[j] >= 1,
                size as nat == shape_size(shape@.subrange(0, k as int)),
                elems as nat == data@.len(),
            decreases shape@.len() - k,
        {
            let e = shape[k];
            proof {
                assert(shape@.subrange(0, k + 1).drop_last() =~= shape@.subrange(0, k as int));
            }
            size = match size.checked_mul(e) {
                Some(m) => m,
                None => {
                    proof {
                        lemma_shape_size_prefix(shape@, k as int + 1);
                    }
                    return None;
                },
            };
            k = k + 1;
        }
        proof {
            assert(shape@.subrange(0, shape@.len() as int) =~= shape@);
        }
        if elems == size {
            Some(Tensor { shape, data })
        } else {
            None
        }
    }

    /// Returns an independent copy of the shape alone.
    pub fn shape_duplicate(&self) -> (r: Vec<usize>)
        ensures
            r@ == self.shape@,
    {
        let mut shape: Vec<usize> = Vec::new();
        let mut i: usize = 0;
        while i < self.shape.len()
            invariant
                i <= self.shape@.len(),
                shape@ == self.shape@.subrange(0, i as int),
            decreases self.shape@.len() - i,
        {
            let e = self.shape[i];
            shape.push(e);
            proof {
                assert(shape@ =~= self.shape@.subrange(0, i + 1));
            }
            i = i + 1;
        }
        proof {
            assert(self.shape@.subrange(0, self.shape@.len() as int) =~= self.shape@);
        }
        shape
    }
}

impl<T: Copy> Tensor<T> {
    /// Returns an independent copy with the same shape and elements.
    pub fn duplicate(&self) -> (r: Self)
        ensures
            r.shape@ == self.shape@,
            r.data@ == self.data@,
    {
        let shape = self.shape_duplicate();
        let mut data: Vec<T> = Vec::new();
        let mut j: usize = 0;
        while j < self.data.len()
            invariant
                j <= self.data@.len(),
                data@ == self.data@.subrange(0, j as int),
            decreases self.data@.len() - j,
        {
            let e = self.data[j];
            data.push(e);
            proof {
                assert(data@ =~= self.data@.subrange(0, j + 1));
            }
            j = j + 1;
        }
        proof {
            assert(self.data@.subrange(0, self.data@.len() as int) =~= self.data@);
        }
        Tensor { shape, data }
    }
}

/// Compares two shapes for equality, extent by extent.
pub fn shapes_equal(a: &Vec<usize>, b: &Vec<usize>) -> (r: bool)
    ensures
        r <==> a@ == b@,
{
    if a.len() != b.len() {
        return false;
    }
    let mut i: usize = 0;
    while i < a.len()
        invariant
            i <= a@.len(),
            a@.len() == b@.len(),
            forall|j: int| 0 <= j < i ==> a@[j] == b@[j],
        decreases a@.len() - i,
    {
        if a[i] != b[i] {
            return false;
        }
        i = i + 1;
    }
    proof {
        assert(a@ =~= b@);
    }
    true
}

} // verus!
