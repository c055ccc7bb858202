//! Engine-wide laws, stated over the graph model and proved once and for
//! all: how leaf-ness and the gradient requirement propagate through
//! operators, and which gradients a backward pass writes where.

use vstd::prelude::*;

use crate::arithmetic::{binary_result, unary_result};
use crate::backward::{
    binary_grads, prop_model, unary_grad, AddBackward, BinaryBackwardFn, MulBackward,
    PowBackward, ReluBackward, UnaryBackwardFn,
};
use crate::buffer::{mul_bufs, ones_of, pow_grad_buf, relu_grad_buf};
use crate::graph::{graph_wf, ok_ref, with_grad_of};
use crate::tensor::{tensor_wf, TensorModel, TensorRef};

verus! {

/// In a well-formed graph a tensor is a leaf exactly when it has no
/// provenance.
pub proof fn lemma_leaf_iff_no_provenance(s: Seq<TensorModel>, i: int)
    requires
        graph_wf(s),
        0 <= i < s.len(),
    ensures
        s[i].is_leaf <==> s[i].prov is None,
{
    assert(tensor_wf(s[i]));
}

/// A binary operator's result requires gradient exactly when either
/// operand does, and is a leaf exactly when neither does: building it
/// from at least one grad-requiring operand yields a non-leaf.
pub proof fn lemma_binary_result_flags(
    s: Seq<TensorModel>,
    a: TensorRef,
    b: TensorRef,
    rule: BinaryBackwardFn,
)
    requires
        ok_ref(s, a),
        ok_ref(s, b),
    ensures
        binary_result(s, a, b, rule).requires_grad == (s[a.id()].requires_grad
            || s[b.id()].requires_grad),
        binary_result(s, a, b, rule).is_leaf == !(s[a.id()].requires_grad
            || s[b.id()].requires_grad),
        binary_result(s, a, b, rule).is_leaf <==> binary_result(s, a, b, rule).prov is None,
{
}

/// A unary operator's result requires gradient exactly when its operand
/// does, and is a leaf exactly when it does not.
pub proof fn lemma_unary_result_flags(s: Seq<TensorModel>, x: TensorRef, rule: UnaryBackwardFn)
    requires
        ok_ref(s, x),
    ensures
        unary_result(s, x, rule).requires_grad == s[x.id()].requires_grad,
        unary_result(s, x, rule).is_leaf == !s[x.id()].requires_grad,
        unary_result(s, x, rule).is_leaf <==> unary_result(s, x, rule).prov is None,
{
}

/// Backward through one binary operator over two distinct, fresh,
/// grad-requiring leaves writes exactly the rule's two local gradients of
/// the seed into the two leaves.
pub proof fn lemma_binary_backward_routes(
    s: Seq<TensorModel>,
    a: TensorRef,
    b: TensorRef,
    rule: BinaryBackwardFn,
)
    requires
        ok_ref(s, a),
        ok_ref(s, b),
        a.id() != b.id(),
        s[a.id()].prov is None,
        s[b.id()].prov is None,
        s[a.id()].requires_grad,
        s[b.id()].requires_grad,
        s[a.id()].grad is None,
        s[b.id()].grad is None,
    ensures
        ({
            let c = binary_result(s, a, b, rule);
            let seed = ones_of(c.data.shape);
            let grads = binary_grads(rule, s[a.id()].data, s[b.id()].data, seed);
            let done = prop_model(s.push(c), s.len() as int, seed);
            &&& done[a.id()].grad == Some(grads.0)
            &&& done[b.id()].grad == Some(grads.1)
            &&& forall|j: int|
                0 <= j < s.len() && j != a.id() && j != b.id() ==> #[trigger] done[j] == s[j]
        }),
{
    let c = binary_result(s, a, b, rule);
    let s1 = s.push(c);
    let ci = s.len() as int;
    let seed = ones_of(c.data.shape);
    let grads = binary_grads(rule, s1[a.id()].data, s1[b.id()].data, seed);
    assert(s1[a.id()] == s[a.id()]);
    assert(s1[b.id()] == s[b.id()]);
    let s2 = prop_model(s1, a.id(), grads.0);
    assert(s2 == s1.update(a.id(), with_grad_of(s1[a.id()], Some(grads.0))));
    assert(s2[b.id()] == s[b.id()]);
    let s3 = prop_model(s2, b.id(), grads.1);
    assert(s3 == s2.update(b.id(), with_grad_of(s2[b.id()], Some(grads.1))));
    assert(prop_model(s1, ci, seed) == s3);
}

/// Backward through one unary operator over a fresh grad-requiring leaf
/// writes exactly the rule's local gradient of the seed into that leaf.
pub proof fn lemma_unary_backward_routes(s: Seq<TensorModel>, x: TensorRef, rule: UnaryBackwardFn)
    requires
        ok_ref(s, x),
        s[x.id()].prov is None,
        s[x.id()].requires_grad,
        s[x.id()].grad is None,
    ensures
        ({
            let c = unary_result(s, x, rule);
            let seed = ones_of(c.data.shape);
            let done = prop_model(s.push(c), s.len() as int, seed);
            &&& done[x.id()].grad == Some(unary_grad(rule, s[x.id()].data, seed))
            &&& forall|j: int| 0 <= j < s.len() && j != x.id() ==> #[trigger] done[j] == s[j]
        }),
{
    let c = unary_result(s, x, rule);
    let s1 = s.push(c);
    let ci = s.len() as int;
    let seed = ones_of(c.data.shape);
    let g2 = unary_grad(rule, s1[x.id()].data, seed);
    assert(s1[x.id()] == s[x.id()]);
    let s2 = prop_model(s1, x.id(), g2);
    assert(s2 == s1.update(x.id(), with_grad_of(s1[x.id()], Some(g2))));
    assert(prop_model(s1, ci, seed) == s2);
}

/// After backward through a sum of two distinct, fresh, grad-requiring
/// leaves, each leaf's gradient is a buffer of ones shaped like the
/// output: addition passes the seed of ones through unchanged.
pub proof fn lemma_add_backward_ones(s: Seq<TensorModel>, a: TensorRef, b: TensorRef)
    requires
        ok_ref(s, a),
        ok_ref(s, b),
        a.id() != b.id(),
        s[a.id()].prov is None,
        s[b.id()].prov is None,
        s[a.id()].requires_grad,
        s[b.id()].requires_grad,
        s[a.id()].grad is None,
        s[b.id()].grad is None,
    ensures
        ({
            let c = binary_result(s, a, b, BinaryBackwardFn::Add(AddBackward));
            let seed = ones_of(c.data.shape);
            let done = prop_model(s.push(c), s.len() as int, seed);
            &&& done[a.id()].grad == Some(seed)
            &&& done[b.id()].grad == Some(seed)
        }),
{
    lemma_binary_backward_routes(s, a, b, BinaryBackwardFn::Add(AddBackward));
}

/// After backward through an elementwise product of two distinct, fresh,
/// grad-requiring leaves, each leaf's gradient is the seed of ones times
/// the other operand's data.
pub proof fn lemma_mul_backward_grads(s: Seq<TensorModel>, a: TensorRef, b: TensorRef)
    requires
        ok_ref(s, a),
        ok_ref(s, b),
        a.id() != b.id(),
        s[a.id()].prov is None,
        s[b.id()].prov is None,
        s[a.id()].requires_grad,
        s[b.id()].requires_grad,
        s[a.id()].grad is None,
        s[b.id()].grad is None,
    ensures
        ({
            let c = binary_result(s, a, b, BinaryBackwardFn::Mul(MulBackward));
            let seed = ones_of(c.data.shape);
            let done = prop_model(s.push(c), s.len() as int, seed);
            &&& done[a.id()].grad == Some(mul_bufs(seed, s[b.id()].data))
            &&& done[b.id()].grad == Some(mul_bufs(seed, s[a.id()].data))
        }),
{
    lemma_binary_backward_routes(s, a, b, BinaryBackwardFn::Mul(MulBackward));
}

/// After backward through an elementwise power of a fresh grad-requiring
/// leaf, the leaf's gradient is the power rule applied to the seed of
/// ones: the seed times the exponent times the input raised to one less.
pub proof fn lemma_pow_backward_grad(s: Seq<TensorModel>, x: TensorRef, e: u32)
    requires
        ok_ref(s, x),
        s[x.id()].prov is None,
        s[x.id()].requires_grad,
        s[x.id()].grad is None,
    ensures
        ({
            let c = unary_result(s, x, UnaryBackwardFn::Pow(PowBackward(e)));
            let seed = ones_of(c.data.shape);
            let done = prop_model(s.push(c), s.len() as int, seed);
            done[x.id()].grad == Some(pow_grad_buf(s[x.id()].data, seed, e))
        }),
{
    lemma_unary_backward_routes(s, x, UnaryBackwardFn::Pow(PowBackward(e)));
}

/// After backward through the rectifier of a fresh grad-requiring leaf,
/// the leaf's gradient is the seed of ones masked by the sign of the
/// input: kept where the input was strictly above zero, zero at or below
/// it.
pub proof fn lemma_relu_backward_grad(s: Seq<TensorModel>, x: TensorRef)
    requires
        ok_ref(s, x),
        s[x.id()].prov is None,
        s[x.id()].requires_grad,
        s[x.id()].grad is None,
    ensures
        ({
            let c = unary_result(s, x, UnaryBackwardFn::Relu(ReluBackward));
            let seed = ones_of(c.data.shape);
            let done = prop_model(s.push(c), s.len() as int, seed);
            done[x.id()].grad == Some(relu_grad_buf(s[x.id()].data, seed))
        }),
{
    lemma_unary_backward_routes(s, x, UnaryBackwardFn::Relu(ReluBackward));
}

/// A backward pass never populates the gradient of a tensor that does not
/// require gradient: in a well-formed graph such a tensor's gradient is
/// absent and stays absent.
pub proof fn lemma_backward_skips_nongrad(s: Seq<TensorModel>, i: int, g: crate::buffer::BufModel)
    requires
        graph_wf(s),
    ensures
        forall|j: int|
            0 <= j < s.len() && !s[j].requires_grad ==> (#[trigger] prop_model(s, i, g)[j]).grad
                is None,
{
    crate::backward::lemma_prop_frame(s, i, g);
    assert forall|j: int| 0 <= j < s.len() && !s[j].requires_grad implies (#[trigger] prop_model(
        s,
        i,
        g,
    )[j]).grad is None by {
        assert(tensor_wf(s[j]));
        assert(prop_model(s, i, g)[j] == s[j]);
    }
}

} // verus!
