//! Tensors and tensor handles.
//!
//! A tensor owns a numeric buffer together with its autograd bookkeeping:
//! the `requires_grad` flag, whether it is a leaf, the gradient buffer
//! populated on leaves by the backward pass, and the provenance node of a
//! tensor produced by an operator.  Tensors live in an arena graph (see
//! [`crate::graph::Graph`]); a [`TensorRef`] is a cheap copyable handle to
//! one slot of that arena, so the same tensor can stand as an operand in
//! any number of graph edges, and a mutation made through any handle is
//! seen through all of them.

use vstd::prelude::*;

use crate::buffer::{buf_wf, count, BufModel, Buffer, Shape};
use crate::error::TensorError;
use crate::node::Node;

verus! {

/// A shared handle to one tensor of a graph.  Copying the handle never
/// copies the tensor: every copy names the same arena slot.
#[derive(Clone, Copy, Debug, PartialEq, Eq, Structural)]
pub struct TensorRef {
    index: usize,
}

impl TensorRef {
    /// The arena slot this handle names.
    pub closed spec fn id(self) -> int {
        self.index as int
    }

    /// The arena slot this handle names.
    pub fn index(&self) -> (r: usize)
        ensures
            r == self.id(),
    {
        self.index
    }

    /// The handle of the given arena slot.
    pub(crate) fn at(index: usize) -> (r: TensorRef)
        ensures
            r.id() == index,
            r == ref_at(index as int),
    {
        TensorRef { index }
    }
}

/// The handle of slot `i`, as a specification value.
pub closed spec fn ref_at(i: int) -> TensorRef {
    TensorRef { index: i as usize }
}

/// Two handles naming the same slot are the same handle.
pub proof fn lemma_ref_eq(x: TensorRef, y: TensorRef)
    requires
        x.id() == y.id(),
    ensures
        x == y,
{
}

/// The handle of a slot names that slot.
pub proof fn lemma_ref_at_id(i: int)
    requires
        0 <= i <= usize::MAX,
    ensures
        ref_at(i).id() == i,
{
}

/// The mathematical value of a tensor: the value of its buffer and of its
/// autograd bookkeeping.
#[verifier::ext_equal]
pub ghost struct TensorModel {
    pub data: BufModel,
    pub requires_grad: bool,
    pub is_leaf: bool,
    pub grad: Option<BufModel>,
    pub prov: Option<Node>,
}

/// A tensor's own well-formedness: its buffer is well formed, it is a
/// leaf exactly when it has no provenance, provenance implies the
/// gradient requirement, and a populated gradient sits only on a
/// grad-requiring leaf and has the shape of the data.
pub open spec fn tensor_wf(t: TensorModel) -> bool {
    &&& buf_wf(t.data)
    &&& (t.is_leaf <==> t.prov is None)
    &&& (t.prov is Some ==> t.requires_grad)
    &&& (match t.grad {
        Some(g) => t.is_leaf && t.requires_grad && g.shape == t.data.shape && buf_wf(g),
        None => true,
    })
}

/// A tensor: a numeric buffer with autograd bookkeeping.
#[derive(Clone, Debug)]
pub struct Tensor {
    pub(crate) data: Buffer,
    pub(crate) requires_grad: bool,
    pub(crate) is_leaf: bool,
    pub(crate) grad: Option<Buffer>,
    pub(crate) prov: Option<Node>,
}

impl View for Tensor {
    type V = TensorModel;

    closed spec fn view(&self) -> TensorModel {
        TensorModel {
            data: self.data@,
            requires_grad: self.requires_grad,
            is_leaf: self.is_leaf,
            grad: match self.grad {
                Some(b) => Some(b@),
                None => None,
            },
            prov: self.prov,
        }
    }
}

impl Tensor {
    /// Whether the tensor's bookkeeping is well formed.
    pub open spec fn wf(&self) -> bool {
        tensor_wf(self@)
    }

    /// A leaf tensor owning the given buffer: no provenance, no gradient.
    pub fn new(data: Buffer, requires_grad: bool) -> (t: Tensor)
        requires
            data.wf(),
        ensures
            t@.data == data@,
            t@.requires_grad == requires_grad,
            t@.is_leaf,
            t@.grad is None,
            t@.prov is None,
            t.wf(),
    {
        Tensor { data, requires_grad, is_leaf: true, grad: None, prov: None }
    }

    /// A zero-dimensional leaf tensor holding the one given element, not
    /// requiring gradient.
    pub fn from_scalar(x: u64) -> (t: Tensor)
        ensures
            t@.data.shape == Seq::<usize>::empty(),
            t@.data.data == seq![x],
            !t@.requires_grad,
            t@.is_leaf,
            t@.grad is None,
            t@.prov is None,
            t.wf(),
    {
        Tensor::new(Buffer::scalar(x), false)
    }

    /// A one-dimensional leaf tensor holding the given elements, not
    /// requiring gradient.
    pub fn from_slice(data: Vec<u64>) -> (t: Tensor)
        ensures
            t@.data.shape =~= seq![data@.len() as usize],
            t@.data.data == data@,
            !t@.requires_grad,
            t@.is_leaf,
            t@.grad is None,
            t@.prov is None,
            t.wf(),
    {
        Tensor::new(Buffer::vector(data), false)
    }

    /// A two-dimensional leaf tensor from rectangular nested rows, not
    /// requiring gradient; fails exactly when two rows differ in length.
    pub fn from_nested(rows: Vec<Vec<u64>>) -> (r: Result<Tensor, TensorError>)
        ensures
            match r {
                Ok(t) => {
                    &&& forall|i: int|
                        0 <= i < rows@.len() ==> (#[trigger] rows@[i])@.len() == first_row_len(
                            rows@,
                        )
                    &&& t@.data.shape =~= seq![
                        rows@.len() as usize,
                        first_row_len(rows@) as usize,
                    ]
                    &&& t@.data.data =~= flat_rows(rows@)
                    &&& !t@.requires_grad
                    &&& t@.is_leaf
                    &&& t@.grad is None
                    &&& t@.prov is None
                    &&& t.wf()
                },
                Err(e) => {
                    &&& e == TensorError::Shape
                    &&& exists|i: int|
                        0 <= i < rows@.len() && (#[trigger] rows@[i])@.len() != first_row_len(
                            rows@,
                        )
                },
            },
    {
        let m = rows.len();
        let n = if m == 0 {
            0
        } else {
            rows[0].len()
        };
        let mut data: Vec<u64> = Vec::new();
        let mut i: usize = 0;
        while i < m
            invariant
                0 <= i <= m,
                m == rows@.len(),
                n == first_row_len(rows@),
                forall|j: int| 0 <= j < i ==> (#[trigger] rows@[j])@.len() == n,
                data@ =~= flat_rows(rows@.take(i as int)),
                data@.len() == i * n,
            decreases m - i,
        {
            if rows[i].len() != n {
                return Err(TensorError::Shape);
            }
            let row = &rows[i];
            let mut j: usize = 0;
            while j < n
                invariant
                    0 <= j <= n,
                    0 <= i < m,
                    m == rows@.len(),
                    row == rows@[i as int],
                    row@.len() == n,
                    data@ =~= flat_rows(rows@.take(i as int)) + row@.take(j as int),
                decreases n - j,
            {
                data.push(row[j]);
                j = j + 1;
            }
            proof {
                assert(rows@.take(i + 1).drop_last() =~= rows@.take(i as int));
                assert(rows@.take(i + 1).last() == rows@[i as int]);
                assert(row@.take(n as int) =~= row@);
                assert(data@ =~= flat_rows(rows@.take(i + 1)));
                assert((i + 1) * n == i * n + n) by (nonlinear_arith);
            }
            i = i + 1;
        }
        proof {
            assert(rows@.take(m as int) =~= rows@);
        }
        let len = data.len();
        let mut dims: Vec<usize> = Vec::new();
        dims.push(m);
        dims.push(n);
        proof {
            assert(dims@ =~= seq![m, n]);
            crate::buffer::lemma_count_pair(m, n);
        }
        let buf = match Buffer::new(Shape::new(dims), data) {
            Some(b) => b,
            None => {
                proof {
                    assert(false);
                }
                return Err(TensorError::Shape);
            }
        };
        Ok(Tensor::new(buf, false))
    }

    /// The same tensor with `requires_grad` set: apply it before the
    /// tensor takes part in an operation, since operators read the flag
    /// when they are built.
    pub fn with_grad(self) -> (t: Tensor)
        requires
            self.wf(),
            self@.prov is None,
        ensures
            t@.data == self@.data,
            t@.requires_grad,
            t@.is_leaf == self@.is_leaf,
            t@.grad == self@.grad,
            t@.prov == self@.prov,
            t.wf(),
    {
        Tensor {
            data: self.data,
            requires_grad: true,
            is_leaf: self.is_leaf,
            grad: self.grad,
            prov: self.prov,
        }
    }

    /// A tensor assembled field by field; the caller answers for the
    /// bookkeeping it builds.
    pub(crate) fn assemble(
        data: Buffer,
        requires_grad: bool,
        is_leaf: bool,
        grad: Option<Buffer>,
        prov: Option<Node>,
    ) -> (t: Tensor)
        ensures
            t@.data == data@,
            t@.requires_grad == requires_grad,
            t@.is_leaf == is_leaf,
            t@.grad == match grad {
                Some(b) => Some(b@),
                None => None::<BufModel>,
            },
            t@.prov == prov,
    {
        Tensor { data, requires_grad, is_leaf, grad, prov }
    }

    /// The tensor's buffer.
    pub fn data(&self) -> (r: &Buffer)
        ensures
            r@ == self@.data,
    {
        &self.data
    }

    /// The tensor's gradient, or `None` while none is populated.
    pub fn grad_ref(&self) -> (r: Option<&Buffer>)
        ensures
            match r {
                Some(b) => self@.grad == Some(b@),
                None => self@.grad is None,
            },
    {
        match &self.grad {
            Some(b) => Some(b),
            None => None,
        }
    }

    /// The tensor's provenance, or `None` on a leaf.
    pub fn prov(&self) -> (r: Option<Node>)
        ensures
            r == self@.prov,
    {
        self.prov
    }

    /// Whether the tensor takes part in gradient computation.
    pub fn requires_grad(&self) -> (r: bool)
        ensures
            r == self@.requires_grad,
    {
        self.requires_grad
    }

    /// Whether the tensor was built directly rather than by an operator.
    pub fn is_leaf(&self) -> (r: bool)
        ensures
            r == self@.is_leaf,
    {
        self.is_leaf
    }
}

/// The length of the first row, and zero when there is none: the column
/// count a rectangular nesting must hold to.
pub open spec fn first_row_len(rows: Seq<Vec<u64>>) -> nat {
    if rows.len() == 0 {
        0
    } else {
        rows[0]@.len()
    }
}

/// The elements of nested rows, flattened row major.
pub open spec fn flat_rows(rows: Seq<Vec<u64>>) -> Seq<u64>
    decreases rows.len(),
{
    if rows.len() == 0 {
        Seq::empty()
    } else {
        flat_rows(rows.drop_last()) + rows.last()@
    }
}

} // verus!
