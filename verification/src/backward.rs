//! Backward rules: one derivative rule per differentiable operator.
//!
//! Each rule turns the upstream gradient of an operator's output into the
//! local gradient(s) of its operand(s), following the operator's
//! derivative: addition passes the gradient through, subtraction negates
//! the right share, multiplication scales by the other operand, division
//! follows the quotient rule, the power rule multiplies by the exponent
//! and the lowered power, the mean divides by the element count and
//! broadcasts, the rectifier masks by the sign of the input, and the
//! matrix product multiplies by the transposed other operand.

use vstd::prelude::*;

use crate::buffer::{
    add_bufs, div_bufs, matmul_bufs, mean_grad_buf, mul_bufs, neg_buf, pow_grad_buf,
    relu_grad_buf, sub_bufs, transpose_bufs, BufModel, Buffer,
};
use crate::error::TensorError;
use crate::graph::{
    binary_shape_ok, graph_wf, node_ok, ok_ref, with_grad_of, Graph,
};
use crate::node::Node;
use crate::tensor::{tensor_wf, TensorModel, TensorRef};

verus! {

/// The backward rule of elementwise addition.
#[derive(Clone, Copy, Debug)]
pub struct AddBackward;

/// The backward rule of elementwise subtraction.
#[derive(Clone, Copy, Debug)]
pub struct SubBackward;

/// The backward rule of elementwise multiplication.
#[derive(Clone, Copy, Debug)]
pub struct MulBackward;

/// The backward rule of elementwise division.
#[derive(Clone, Copy, Debug)]
pub struct DivBackward;

/// The backward rule of the matrix product.
#[derive(Clone, Copy, Debug)]
pub struct MatMulBackward;

/// The backward rule of the elementwise power, carrying the exponent.
#[derive(Clone, Copy, Debug)]
pub struct PowBackward(pub u32);

/// The backward rule of the scalar mean.
#[derive(Clone, Copy, Debug)]
pub struct MeanBackward;

/// The backward rule of the rectifier.
#[derive(Clone, Copy, Debug)]
pub struct ReluBackward;

/// The backward rule recorded by a binary operator.
#[derive(Clone, Copy, Debug)]
pub enum BinaryBackwardFn {
    Add(AddBackward),
    Sub(SubBackward),
    Mul(MulBackward),
    Div(DivBackward),
    MatMul(MatMulBackward),
}

/// The backward rule recorded by a unary operator.
#[derive(Clone, Copy, Debug)]
pub enum UnaryBackwardFn {
    Pow(PowBackward),
    Relu(ReluBackward),
    Mean(MeanBackward),
}

/// The gradients a binary rule routes to its left and right operands,
/// given the operand values `a` and `b` and the upstream gradient `g`.
pub open spec fn binary_grads(
    rule: BinaryBackwardFn,
    a: BufModel,
    b: BufModel,
    g: BufModel,
) -> (BufModel, BufModel) {
    match rule {
        BinaryBackwardFn::Add(_) => (g, g),
        BinaryBackwardFn::Sub(_) => (g, neg_buf(g)),
        BinaryBackwardFn::Mul(_) => (mul_bufs(g, b), mul_bufs(g, a)),
        BinaryBackwardFn::Div(_) => (
            div_bufs(g, b),
            neg_buf(div_bufs(mul_bufs(g, a), mul_bufs(b, b))),
        ),
        BinaryBackwardFn::MatMul(_) => (
            matmul_bufs(g, transpose_bufs(b)),
            matmul_bufs(transpose_bufs(a), g),
        ),
    }
}

/// The gradient a unary rule routes to its operand, given the operand
/// value `x` and the upstream gradient `g`.
pub open spec fn unary_grad(rule: UnaryBackwardFn, x: BufModel, g: BufModel) -> BufModel {
    match rule {
        UnaryBackwardFn::Pow(PowBackward(e)) => pow_grad_buf(x, g, e),
        UnaryBackwardFn::Relu(_) => relu_grad_buf(x, g),
        UnaryBackwardFn::Mean(_) => mean_grad_buf(x, g),
    }
}

/// A gradient arriving at a leaf joins what is already stored there: the
/// first arrival is stored as it is, later arrivals are added, so a leaf
/// reached along several paths receives the sum of their contributions.
pub open spec fn accum_grad(cur: Option<BufModel>, g: BufModel) -> Option<BufModel> {
    match cur {
        None => Some(g),
        Some(x) => Some(add_bufs(x, g)),
    }
}

/// The backward pass from slot `i` with upstream gradient `g`: a
/// grad-requiring leaf accumulates `g`; a tensor with provenance hands
/// each operand its local gradient and recurses, left before right; a
/// tensor that does not require gradient stops the walk.
pub open spec fn prop_model(s: Seq<TensorModel>, i: int, g: BufModel) -> Seq<TensorModel>
    decreases i,
{
    if 0 <= i < s.len() {
        let t = s[i];
        if !t.requires_grad {
            s
        } else {
            match t.prov {
                None => s.update(i, with_grad_of(t, accum_grad(t.grad, g))),
                Some(Node::Unary { tensor: x, backward_fn: rule }) => {
                    if 0 <= x.id() < i {
                        prop_model(s, x.id(), unary_grad(rule, s[x.id()].data, g))
                    } else {
                        s
                    }
                },
                Some(Node::Binary { tensors: (l, r), backward_fn: rule }) => {
                    if 0 <= l.id() < i && 0 <= r.id() < i {
                        let grads = binary_grads(rule, s[l.id()].data, s[r.id()].data, g);
                        prop_model(prop_model(s, l.id(), grads.0), r.id(), grads.1)
                    } else {
                        s
                    }
                },
            }
        }
    } else {
        s
    }
}

/// The backward pass only writes gradients: every slot keeps its data,
/// flags and provenance, and a slot that is not a grad-requiring leaf is
/// untouched entirely.
pub proof fn lemma_prop_frame(s: Seq<TensorModel>, i: int, g: BufModel)
    ensures
        prop_model(s, i, g).len() == s.len(),
        forall|j: int|
            0 <= j < s.len() ==> {
                let t2 = #[trigger] prop_model(s, i, g)[j];
                &&& t2.data == s[j].data
                &&& t2.requires_grad == s[j].requires_grad
                &&& t2.is_leaf == s[j].is_leaf
                &&& t2.prov == s[j].prov
                &&& (!(s[j].prov is None && s[j].requires_grad) ==> t2 == s[j])
            },
    decreases i,
{
    if 0 <= i < s.len() {
        let t = s[i];
        if t.requires_grad {
            match t.prov {
                None => {},
                Some(Node::Unary { tensor: x, backward_fn: rule }) => {
                    if 0 <= x.id() < i {
                        lemma_prop_frame(s, x.id(), unary_grad(rule, s[x.id()].data, g));
                    }
                },
                Some(Node::Binary { tensors: (l, r), backward_fn: rule }) => {
                    if 0 <= l.id() < i && 0 <= r.id() < i {
                        let grads = binary_grads(rule, s[l.id()].data, s[r.id()].data, g);
                        lemma_prop_frame(s, l.id(), grads.0);
                        lemma_prop_frame(prop_model(s, l.id(), grads.0), r.id(), grads.1);
                    }
                },
            }
        }
    }
}

/// The backward pass keeps the graph well formed, provided the gradient
/// it starts from is well formed and shaped like the starting slot's
/// data.
pub proof fn lemma_prop_wf(s: Seq<TensorModel>, i: int, g: BufModel)
    requires
        graph_wf(s),
        0 <= i < s.len() ==> crate::buffer::buf_wf(g) && g.shape == s[i].data.shape,
    ensures
        graph_wf(prop_model(s, i, g)),
    decreases i,
{
    if 0 <= i < s.len() {
        let t = s[i];
        assert(tensor_wf(t));
        assert(node_ok(s, i));
        if t.requires_grad {
            match t.prov {
                None => {
                    let s2 = s.update(i, with_grad_of(t, accum_grad(t.grad, g)));
                    assert(tensor_wf(s2[i]));
                    crate::graph::lemma_wf_update_bookkeeping(s, s2, i);
                },
                Some(Node::Unary { tensor: x, backward_fn: rule }) => {
                    if 0 <= x.id() < i {
                        assert(tensor_wf(s[x.id()]));
                        let g2 = unary_grad(rule, s[x.id()].data, g);
                        assert(crate::buffer::buf_wf(g2) && g2.shape == s[x.id()].data.shape);
                        lemma_prop_wf(s, x.id(), g2);
                    }
                },
                Some(Node::Binary { tensors: (l, r), backward_fn: rule }) => {
                    if 0 <= l.id() < i && 0 <= r.id() < i {
                        assert(tensor_wf(s[l.id()]));
                        assert(tensor_wf(s[r.id()]));
                        let grads = binary_grads(rule, s[l.id()].data, s[r.id()].data, g);
                        lemma_binary_grads_fit(rule, s[l.id()].data, s[r.id()].data, s[i].data, g);
                        lemma_prop_wf(s, l.id(), grads.0);
                        let s2 = prop_model(s, l.id(), grads.0);
                        lemma_prop_frame(s, l.id(), grads.0);
                        lemma_prop_wf(s2, r.id(), grads.1);
                    }
                },
            }
        }
    }
}

/// The local gradients of a binary rule are well formed and shaped like
/// the operands, whenever the upstream gradient is well formed and shaped
/// like the output.
pub proof fn lemma_binary_grads_fit(
    rule: BinaryBackwardFn,
    a: BufModel,
    b: BufModel,
    y: BufModel,
    g: BufModel,
)
    requires
        crate::buffer::buf_wf(a),
        crate::buffer::buf_wf(b),
        crate::buffer::buf_wf(g),
        binary_shape_ok(rule, a, b, y),
        g.shape == y.shape,
    ensures
        crate::buffer::buf_wf(binary_grads(rule, a, b, g).0),
        crate::buffer::buf_wf(binary_grads(rule, a, b, g).1),
        binary_grads(rule, a, b, g).0.shape == a.shape,
        binary_grads(rule, a, b, g).1.shape == b.shape,
{
    match rule {
        BinaryBackwardFn::MatMul(_) => {
            let gl = matmul_bufs(g, transpose_bufs(b));
            let gr = matmul_bufs(transpose_bufs(a), g);
            assert(a.shape =~= seq![a.shape[0], a.shape[1]]);
            assert(b.shape =~= seq![b.shape[0], b.shape[1]]);
            assert(gl.shape =~= a.shape);
            assert(gr.shape =~= b.shape);
            crate::buffer::lemma_count_pair(a.shape[0], a.shape[1]);
            crate::buffer::lemma_count_pair(b.shape[0], b.shape[1]);
            assert(gl.data.len() == a.shape[0] * a.shape[1]);
            assert(gr.data.len() == b.shape[0] * b.shape[1]);
        },
        _ => {},
    }
}

impl UnaryBackwardFn {
    /// The gradient this rule routes to its operand, computed from the
    /// operand's value and the upstream gradient.
    pub fn backward(&self, x: &Buffer, g: &Buffer) -> (r: Buffer)
        requires
            x.wf(),
            g.wf(),
            match *self {
                UnaryBackwardFn::Mean(_) => g@.data.len() == 1,
                _ => g@.shape == x@.shape,
            },
        ensures
            r@ == unary_grad(*self, x@, g@),
            r.wf(),
            r@.shape == x@.shape,
    {
        match self {
            UnaryBackwardFn::Pow(rule) => rule.backward(x, g),
            UnaryBackwardFn::Relu(rule) => rule.backward(x, g),
            UnaryBackwardFn::Mean(rule) => rule.backward(x, g),
        }
    }
}

impl BinaryBackwardFn {
    /// The gradients this rule routes to its operands, computed from the
    /// operand values and the upstream gradient.
    pub fn backward(&self, a: &Buffer, b: &Buffer, g: &Buffer) -> (r: (Buffer, Buffer))
        requires
            a.wf(),
            b.wf(),
            g.wf(),
            binary_shape_ok(*self, a@, b@, g@),
        ensures
            r.0@ == binary_grads(*self, a@, b@, g@).0,
            r.1@ == binary_grads(*self, a@, b@, g@).1,
            r.0.wf(),
            r.1.wf(),
            r.0@.shape == a@.shape,
            r.1@.shape == b@.shape,
    {
        match self {
            BinaryBackwardFn::Add(rule) => rule.backward(g),
            BinaryBackwardFn::Sub(rule) => rule.backward(g),
            BinaryBackwardFn::Mul(rule) => rule.backward(a, b, g),
            BinaryBackwardFn::Div(rule) => rule.backward(a, b, g),
            BinaryBackwardFn::MatMul(rule) => {
                let r = rule.backward(a, b, g);
                proof {
                    lemma_binary_grads_fit(*self, a@, b@, g@, g@);
                }
                r
            },
        }
    }
}

impl Graph {
    /// Routes the upstream gradient `g` of slot `i` down through the
    /// graph: a grad-requiring leaf accumulates it, provenance hands each
    /// operand its local gradient and recurses, and a tensor that does
    /// not require gradient stops the walk.
    fn propagate(&mut self, i: usize, g: Buffer)
        requires
            old(self).wf(),
            i < old(self)@.len(),
            g.wf(),
            g@.shape == old(self)@[i as int].data.shape,
        ensures
            final(self)@ =~= prop_model(old(self)@, i as int, g@),
            final(self).wf(),
        decreases i,
    {
        let t = TensorRef::at(i);
        if !self.requires_grad(t) {
            return;
        }
        proof {
            assert(tensor_wf(self@[i as int]));
            assert(node_ok(self@, i as int));
        }
        match self.prov(t) {
            None => {
                let fresh = {
                    match self.grad(t) {
                        Some(cur) => cur.ew_add(&g),
                        None => g,
                    }
                };
                self.set_grad(t, fresh);
            },
            Some(Node::Unary { tensor: x, backward_fn: rule }) => {
                let g2 = {
                    let xd = self.data(x);
                    rule.backward(xd, &g)
                };
                self.propagate(x.index(), g2);
            },
            Some(Node::Binary { tensors: (l, r), backward_fn: rule }) => {
                let (gl, gr) = {
                    let la = self.data(l);
                    let rb = self.data(r);
                    rule.backward(la, rb, &g)
                };
                let ghost s0 = self@;
                self.propagate(l.index(), gl);
                proof {
                    lemma_prop_frame(s0, l.id(), gl@);
                }
                self.propagate(r.index(), gr);
            },
        }
    }
}

impl TensorRef {
    /// Runs the backward pass with this tensor as the output: seeds a
    /// gradient of ones shaped like it and routes gradients down to the
    /// leaves.  Fails, touching nothing, exactly when the tensor is not
    /// zero-dimensional: gradient computation only supports scalar
    /// outputs.
    pub fn backward(&self, g: &mut Graph) -> (res: Result<(), TensorError>)
        requires
            old(g).wf(),
            ok_ref(old(g)@, *self),
        ensures
            match res {
                Ok(r) => {
                    &&& old(g)@[self.id()].data.shape.len() == 0
                    &&& final(g)@ =~= prop_model(
                        old(g)@,
                        self.id(),
                        crate::buffer::ones_of(old(g)@[self.id()].data.shape),
                    )
                    &&& final(g).wf()
                },
                Err(e) => {
                    &&& e == TensorError::Shape
                    &&& old(g)@[self.id()].data.shape.len() != 0
                    &&& final(g)@ == old(g)@
                },
            },
    {
        let nd = g.data(*self).ndim();
        if nd != 0 {
            return Err(TensorError::Shape);
        }
        let seed = {
            let d = g.data(*self);
            proof {
                assert(tensor_wf(g@[self.id()]));
            }
            d.ones_like()
        };
        g.propagate(self.index(), seed);
        Ok(())
    }
}

impl AddBackward {
    /// Both operands of a sum receive the upstream gradient unchanged.
    pub fn backward(&self, g: &Buffer) -> (r: (Buffer, Buffer))
        requires
            g.wf(),
        ensures
            r.0@ == g@,
            r.1@ == g@,
            r.0.wf(),
            r.1.wf(),
    {
        (g.duplicate(), g.duplicate())
    }
}

impl SubBackward {
    /// The left operand of a difference receives the upstream gradient,
    /// the right one its negation.
    pub fn backward(&self, g: &Buffer) -> (r: (Buffer, Buffer))
        requires
            g.wf(),
        ensures
            r.0@ == g@,
            r.1@ == neg_buf(g@),
            r.0.wf(),
            r.1.wf(),
    {
        (g.duplicate(), g.ew_neg())
    }
}

impl MulBackward {
    /// Each operand of an elementwise product receives the upstream
    /// gradient scaled by the other operand.
    pub fn backward(&self, a: &Buffer, b: &Buffer, g: &Buffer) -> (r: (Buffer, Buffer))
        requires
            a.wf(),
            b.wf(),
            g.wf(),
            a@.shape == b@.shape,
            g@.shape == a@.shape,
        ensures
            r.0@ == mul_bufs(g@, b@),
            r.1@ == mul_bufs(g@, a@),
            r.0.wf(),
            r.1.wf(),
    {
        (g.ew_mul(b), g.ew_mul(a))
    }
}

impl DivBackward {
    /// The quotient rule: the left operand receives the gradient divided
    /// by the right operand; the right one receives the negation of the
    /// gradient times the left operand over the right operand squared.
    pub fn backward(&self, a: &Buffer, b: &Buffer, g: &Buffer) -> (r: (Buffer, Buffer))
        requires
            a.wf(),
            b.wf(),
            g.wf(),
            a@.shape == b@.shape,
            g@.shape == a@.shape,
        ensures
            r.0@ == div_bufs(g@, b@),
            r.1@ == neg_buf(div_bufs(mul_bufs(g@, a@), mul_bufs(b@, b@))),
            r.0.wf(),
            r.1.wf(),
    {
        let left = g.ew_div(b);
        let right = g.ew_mul(a).ew_div(&b.ew_mul(b)).ew_neg();
        (left, right)
    }
}

impl MatMulBackward {
    /// The matrix-product rule: the left operand receives the gradient
    /// times the transposed right operand, the right operand the
    /// transposed left operand times the gradient.
    pub fn backward(&self, a: &Buffer, b: &Buffer, g: &Buffer) -> (r: (Buffer, Buffer))
        requires
            a.wf(),
            b.wf(),
            g.wf(),
            a@.shape.len() == 2,
            b@.shape.len() == 2,
            a@.shape[1] == b@.shape[0],
            g@.shape =~= seq![a@.shape[0], b@.shape[1]],
        ensures
            r.0@ == matmul_bufs(g@, transpose_bufs(b@)),
            r.1@ == matmul_bufs(transpose_bufs(a@), g@),
            r.0.wf(),
            r.1.wf(),
            r.0@.shape =~= a@.shape,
            r.1@.shape =~= b@.shape,
    {
        let bt = b.transpose();
        let at = a.transpose();
        let left = g.matmul(&bt);
        let right = at.matmul(g);
        proof {
            assert(left@.shape =~= a@.shape);
            assert(right@.shape =~= b@.shape);
        }
        (left, right)
    }
}

impl PowBackward {
    /// The power rule: the upstream gradient times the exponent times the
    /// input raised to one less than the exponent.
    pub fn backward(&self, x: &Buffer, g: &Buffer) -> (r: Buffer)
        requires
            x.wf(),
            g.wf(),
            g@.shape == x@.shape,
        ensures
            r@ == pow_grad_buf(x@, g@, self.0),
            r.wf(),
    {
        x.pow_grad(g, self.0)
    }
}

impl ReluBackward {
    /// The rectifier's gradient: the upstream gradient where the input
    /// was strictly above zero, and zero at or below it.
    pub fn backward(&self, x: &Buffer, g: &Buffer) -> (r: Buffer)
        requires
            x.wf(),
            g.wf(),
            g@.shape == x@.shape,
        ensures
            r@ == relu_grad_buf(x@, g@),
            r.wf(),
    {
        x.relu_grad(g)
    }
}

impl MeanBackward {
    /// The mean's gradient: the scalar upstream gradient divided by the
    /// element count, broadcast to the operand's shape.
    pub fn backward(&self, x: &Buffer, g: &Buffer) -> (r: Buffer)
        requires
            x.wf(),
            g.wf(),
            g@.data.len() == 1,
        ensures
            r@ == mean_grad_buf(x@, g@),
            r.wf(),
    {
        x.mean_grad(g)
    }
}

} // verus!
