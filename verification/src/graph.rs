//! The tensor arena: shared, mutably-aliased tensors under one owner.
//!
//! All tensors of one computation live in slots of a [`Graph`]; a
//! [`TensorRef`] names a slot.  Any number of handles may name the same
//! slot — a provenance edge, a caller's variable and an optimizer's
//! parameter list all see the same tensor — while every mutation goes
//! through exclusive access to the graph, so no overlapping borrow can
//! arise at run time.
//!
//! Operators only ever append slots whose provenance points to earlier
//! slots, so provenance edges always lead strictly downward: that order is
//! part of the graph's well-formedness and is what the backward traversal
//! recurses on.

use vstd::prelude::*;

use crate::backward::{BinaryBackwardFn, UnaryBackwardFn};
use crate::buffer::{BufModel, Buffer};
use crate::node::Node;
use crate::tensor::{tensor_wf, Tensor, TensorModel, TensorRef};

verus! {

/// Whether a handle names a slot of the graph value `s`.
pub open spec fn ok_ref(s: Seq<TensorModel>, r: TensorRef) -> bool {
    0 <= r.id() < s.len()
}

/// The shape relation a unary rule keeps between its operand `x` and its
/// output `y`: the power and the rectifier are elementwise, the mean takes
/// a nonempty operand to a scalar.
pub open spec fn unary_shape_ok(rule: UnaryBackwardFn, x: BufModel, y: BufModel) -> bool {
    match rule {
        UnaryBackwardFn::Pow(_) => y.shape == x.shape,
        UnaryBackwardFn::Relu(_) => y.shape == x.shape,
        UnaryBackwardFn::Mean(_) => y.shape == Seq::<usize>::empty() && x.data.len() > 0,
    }
}

/// The shape relation a binary rule keeps between its operands `a` and
/// `b` and its output `y`: the four elementwise rules need equal shapes,
/// the matrix product two-dimensional operands with matching inner
/// dimensions.
pub open spec fn binary_shape_ok(
    rule: BinaryBackwardFn,
    a: BufModel,
    b: BufModel,
    y: BufModel,
) -> bool {
    match rule {
        BinaryBackwardFn::MatMul(_) => {
            &&& a.shape.len() == 2
            &&& b.shape.len() == 2
            &&& a.shape[1] == b.shape[0]
            &&& y.shape == seq![a.shape[0], b.shape[1]]
        },
        _ => a.shape == b.shape && y.shape == a.shape,
    }
}

/// What the provenance of slot `i` demands of the graph: operand handles
/// lead strictly downward, and the operand shapes fit the rule.
pub open spec fn node_ok(s: Seq<TensorModel>, i: int) -> bool {
    match s[i].prov {
        None => true,
        Some(Node::Unary { tensor: t, backward_fn: rule }) => {
            &&& 0 <= t.id() < i
            &&& unary_shape_ok(rule, s[t.id()].data, s[i].data)
        },
        Some(Node::Binary { tensors: (l, r), backward_fn: rule }) => {
            &&& 0 <= l.id() < i
            &&& 0 <= r.id() < i
            &&& binary_shape_ok(rule, s[l.id()].data, s[r.id()].data, s[i].data)
        },
    }
}

/// A graph is well formed when every tensor is and every provenance edge
/// leads strictly downward with fitting shapes.
pub open spec fn graph_wf(s: Seq<TensorModel>) -> bool {
    forall|i: int| 0 <= i < s.len() ==> tensor_wf(#[trigger] s[i]) && node_ok(s, i)
}

/// The same tensor value with its gradient replaced.
pub open spec fn with_grad_of(t: TensorModel, g: Option<BufModel>) -> TensorModel {
    TensorModel { grad: g, ..t }
}

/// The same tensor value with its data replaced.
pub open spec fn with_data_of(t: TensorModel, d: BufModel) -> TensorModel {
    TensorModel { data: d, ..t }
}

/// The arena that owns every tensor of one computation.
#[derive(Debug)]
pub struct Graph {
    pub(crate) tensors: Vec<Tensor>,
}

impl View for Graph {
    type V = Seq<TensorModel>;

    closed spec fn view(&self) -> Seq<TensorModel> {
        self.tensors@.map_values(|t: Tensor| t@)
    }
}

impl Graph {
    /// Whether the whole arena is well formed.
    pub open spec fn wf(&self) -> bool {
        graph_wf(self@)
    }

    /// The graph value and the stored tensors agree slot by slot.
    proof fn lemma_view(&self)
        ensures
            self@.len() == self.tensors@.len(),
            forall|i: int|
                0 <= i < self.tensors@.len() ==> self@[i] == (#[trigger] self.tensors@[i])@,
    {
    }

    /// An empty arena.
    pub fn new() -> (g: Graph)
        ensures
            g@ =~= Seq::<TensorModel>::empty(),
            g.wf(),
    {
        let g = Graph { tensors: Vec::new() };
        proof {
            assert(g@ =~= Seq::<TensorModel>::empty());
        }
        g
    }

    /// How many tensors the arena holds.
    pub fn len(&self) -> (r: usize)
        ensures
            r == self@.len(),
    {
        proof {
            self.lemma_view();
        }
        self.tensors.len()
    }

    /// Appends a tensor whose provenance, if any, fits the graph, and
    /// hands back its handle.
    pub(crate) fn record(&mut self, t: Tensor) -> (r: TensorRef)
        requires
            old(self).wf(),
            t.wf(),
            node_ok(old(self)@.push(t@), old(self)@.len() as int),
        ensures
            final(self)@ =~= old(self)@.push(t@),
            r.id() == old(self)@.len(),
            final(self).wf(),
    {
        proof {
            self.lemma_view();
        }
        let idx = self.tensors.len();
        self.tensors.push(t);
        proof {
            self.lemma_view();
            assert(self@ =~= old(self)@.push(t@));
            assert forall|i: int| 0 <= i < self@.len() implies tensor_wf(#[trigger] self@[i])
                && node_ok(self@, i) by {
                if i < old(self)@.len() {
                    assert(tensor_wf(old(self)@[i]));
                    assert(node_ok(old(self)@, i));
                }
            }
        }
        TensorRef::at(idx)
    }

    /// Moves a leaf tensor into the arena and hands back its handle: the
    /// tensor's entry point into graph participation.
    pub fn insert(&mut self, t: Tensor) -> (r: TensorRef)
        requires
            old(self).wf(),
            t.wf(),
            t@.prov is None,
        ensures
            final(self)@ =~= old(self)@.push(t@),
            r.id() == old(self)@.len(),
            final(self).wf(),
    {
        self.record(t)
    }

    /// Whether the tensor behind the handle takes part in gradient
    /// computation.
    pub fn requires_grad(&self, t: TensorRef) -> (r: bool)
        requires
            ok_ref(self@, t),
        ensures
            r == self@[t.id()].requires_grad,
    {
        proof {
            self.lemma_view();
        }
        self.tensors[t.index()].requires_grad()
    }

    /// Whether the tensor behind the handle is a leaf.
    pub fn is_leaf(&self, t: TensorRef) -> (r: bool)
        requires
            ok_ref(self@, t),
        ensures
            r == self@[t.id()].is_leaf,
    {
        proof {
            self.lemma_view();
        }
        self.tensors[t.index()].is_leaf()
    }

    /// The provenance of the tensor behind the handle, or `None` on a
    /// leaf.
    pub fn prov(&self, t: TensorRef) -> (r: Option<Node>)
        requires
            ok_ref(self@, t),
        ensures
            r == self@[t.id()].prov,
    {
        proof {
            self.lemma_view();
        }
        self.tensors[t.index()].prov()
    }

    /// The buffer of the tensor behind the handle.
    pub fn data(&self, t: TensorRef) -> (r: &Buffer)
        requires
            ok_ref(self@, t),
        ensures
            r@ == self@[t.id()].data,
    {
        proof {
            self.lemma_view();
        }
        self.tensors[t.index()].data()
    }

    /// A snapshot of the gradient of the tensor behind the handle, or
    /// `None` while no backward pass has populated it.
    pub fn grad(&self, t: TensorRef) -> (r: Option<&Buffer>)
        requires
            ok_ref(self@, t),
        ensures
            match r {
                Some(b) => self@[t.id()].grad == Some(b@),
                None => self@[t.id()].grad is None,
            },
    {
        proof {
            self.lemma_view();
        }
        self.tensors[t.index()].grad_ref()
    }

    /// Writes the gradient of a grad-requiring leaf with a buffer shaped
    /// like its data.
    pub(crate) fn set_grad(&mut self, t: TensorRef, b: Buffer)
        requires
            old(self).wf(),
            ok_ref(old(self)@, t),
            old(self)@[t.id()].is_leaf,
            old(self)@[t.id()].requires_grad,
            b.wf(),
            b@.shape == old(self)@[t.id()].data.shape,
        ensures
            final(self)@ =~= old(self)@.update(
                t.id(),
                with_grad_of(old(self)@[t.id()], Some(b@)),
            ),
            final(self).wf(),
    {
        proof {
            self.lemma_view();
        }
        let i = t.index();
        let fresh = {
            let cur = &self.tensors[i];
            Tensor::assemble(
                cur.data().duplicate(),
                cur.requires_grad(),
                cur.is_leaf(),
                Some(b),
                cur.prov(),
            )
        };
        self.tensors.set(i, fresh);
        proof {
            self.lemma_view();
            assert(self@ =~= old(self)@.update(
                t.id(),
                with_grad_of(old(self)@[t.id()], Some(b@)),
            ));
            lemma_wf_update_bookkeeping(old(self)@, self@, t.id());
        }
    }

    /// Clears the gradient of the tensor behind the handle, as an
    /// optimizer does after a parameter update.
    pub fn zero_grad(&mut self, t: TensorRef)
        requires
            old(self).wf(),
            ok_ref(old(self)@, t),
        ensures
            final(self)@ =~= old(self)@.update(
                t.id(),
                with_grad_of(old(self)@[t.id()], None),
            ),
            final(self).wf(),
    {
        proof {
            self.lemma_view();
        }
        let i = t.index();
        let fresh = {
            let cur = &self.tensors[i];
            Tensor::assemble(
                cur.data().duplicate(),
                cur.requires_grad(),
                cur.is_leaf(),
                None,
                cur.prov(),
            )
        };
        self.tensors.set(i, fresh);
        proof {
            self.lemma_view();
            assert(self@ =~= old(self)@.update(t.id(), with_grad_of(old(self)@[t.id()], None)));
            lemma_wf_update_bookkeeping(old(self)@, self@, t.id());
        }
    }

    /// Rewrites the data of the tensor behind the handle with a buffer of
    /// the same shape, as an optimizer does when it steps a parameter.
    pub fn set_data(&mut self, t: TensorRef, b: Buffer)
        requires
            old(self).wf(),
            ok_ref(old(self)@, t),
            b.wf(),
            b@.shape == old(self)@[t.id()].data.shape,
        ensures
            final(self)@ =~= old(self)@.update(
                t.id(),
                with_data_of(old(self)@[t.id()], b@),
            ),
            final(self).wf(),
    {
        proof {
            self.lemma_view();
        }
        let i = t.index();
        let fresh = {
            let cur = &self.tensors[i];
            let g = match cur.grad_ref() {
                Some(gb) => Some(gb.duplicate()),
                None => None,
            };
            Tensor::assemble(b, cur.requires_grad(), cur.is_leaf(), g, cur.prov())
        };
        self.tensors.set(i, fresh);
        proof {
            self.lemma_view();
            assert(self@ =~= old(self)@.update(t.id(), with_data_of(old(self)@[t.id()], b@)));
            lemma_wf_update_same_shapes(old(self)@, self@, t.id());
        }
    }
}

/// Replacing one slot's gradient with one that fits it keeps the whole
/// graph well formed: every data buffer, flag and provenance stays.
pub(crate) proof fn lemma_wf_update_bookkeeping(s1: Seq<TensorModel>, s2: Seq<TensorModel>, i: int)
    requires
        graph_wf(s1),
        0 <= i < s1.len(),
        s2.len() == s1.len(),
        forall|j: int| 0 <= j < s1.len() && j != i ==> s2[j] == s1[j],
        s2[i].data == s1[i].data,
        s2[i].requires_grad == s1[i].requires_grad,
        s2[i].is_leaf == s1[i].is_leaf,
        s2[i].prov == s1[i].prov,
        tensor_wf(s2[i]),
    ensures
        graph_wf(s2),
{
    assert forall|j: int| 0 <= j < s2.len() implies tensor_wf(#[trigger] s2[j]) && node_ok(s2, j)
        by {
        assert(tensor_wf(s1[j]));
        assert(node_ok(s1, j));
        match s2[j].prov {
            None => {},
            Some(Node::Unary { tensor: t, backward_fn: rule }) => {
                assert(s2[t.id()].data == s1[t.id()].data);
                assert(s2[j].data == s1[j].data);
            },
            Some(Node::Binary { tensors: (l, r), backward_fn: rule }) => {
                assert(s2[l.id()].data == s1[l.id()].data);
                assert(s2[r.id()].data == s1[r.id()].data);
                assert(s2[j].data == s1[j].data);
            },
        }
    }
}

/// Replacing one slot's data with a buffer of the same shape and length
/// keeps every provenance relation of the graph.
proof fn lemma_wf_update_same_shapes(s1: Seq<TensorModel>, s2: Seq<TensorModel>, i: int)
    requires
        graph_wf(s1),
        0 <= i < s1.len(),
        s2.len() == s1.len(),
        forall|j: int| 0 <= j < s1.len() && j != i ==> s2[j] == s1[j],
        s2[i].data.shape == s1[i].data.shape,
        s2[i].data.data.len() == s1[i].data.data.len(),
        s2[i].requires_grad == s1[i].requires_grad,
        s2[i].is_leaf == s1[i].is_leaf,
        s2[i].grad == s1[i].grad,
        s2[i].prov == s1[i].prov,
        tensor_wf(s2[i]),
    ensures
        graph_wf(s2),
{
    assert forall|j: int| 0 <= j < s2.len() implies tensor_wf(#[trigger] s2[j]) && node_ok(s2, j)
        by {
        assert(tensor_wf(s1[j]));
        assert(node_ok(s1, j));
        match s2[j].prov {
            None => {},
            Some(Node::Unary { tensor: t, backward_fn: rule }) => {
                assert(s2[t.id()].data.shape == s1[t.id()].data.shape);
                assert(s2[t.id()].data.data.len() == s1[t.id()].data.data.len());
                assert(s2[j].data.shape == s1[j].data.shape);
            },
            Some(Node::Binary { tensors: (l, r), backward_fn: rule }) => {
                assert(s2[l.id()].data.shape == s1[l.id()].data.shape);
                assert(s2[r.id()].data.shape == s1[r.id()].data.shape);
                assert(s2[j].data.shape == s1[j].data.shape);
            },
        }
    }
}

} // verus!
