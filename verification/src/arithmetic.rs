//! Operator constructors: building the computation graph.
//!
//! Every operator reads its operands through their handles, computes the
//! result buffer, and appends a result tensor whose `requires_grad` flag
//! is the disjunction of the operands' flags.  When that flag is set the
//! result carries a provenance node with handles to the operands (never
//! copies of them) and the operator's backward rule; otherwise the result
//! is a fresh leaf.  Operands are never modified.

use vstd::prelude::*;

use crate::backward::{
    AddBackward, BinaryBackwardFn, DivBackward, MatMulBackward, MeanBackward, MulBackward,
    PowBackward, SubBackward, UnaryBackwardFn,
};
use crate::buffer::{
    add_bufs, div_bufs, matmul_bufs, mean_buf, mul_bufs, pow_fwd_buf, relu_fwd_buf, sub_bufs,
    BufModel, Buffer,
};
use crate::error::TensorError;
use crate::graph::{binary_shape_ok, node_ok, ok_ref, unary_shape_ok, Graph};
use crate::node::Node;
use crate::tensor::{tensor_wf, Tensor, TensorModel, TensorRef};

verus! {

/// The buffer a binary rule's forward computation produces.
pub open spec fn binary_fwd(rule: BinaryBackwardFn, a: BufModel, b: BufModel) -> BufModel {
    match rule {
        BinaryBackwardFn::Add(_) => add_bufs(a, b),
        BinaryBackwardFn::Sub(_) => sub_bufs(a, b),
        BinaryBackwardFn::Mul(_) => mul_bufs(a, b),
        BinaryBackwardFn::Div(_) => div_bufs(a, b),
        BinaryBackwardFn::MatMul(_) => matmul_bufs(a, b),
    }
}

/// The buffer a unary rule's forward computation produces.
pub open spec fn unary_fwd(rule: UnaryBackwardFn, x: BufModel) -> BufModel {
    match rule {
        UnaryBackwardFn::Pow(PowBackward(e)) => pow_fwd_buf(x, e),
        UnaryBackwardFn::Relu(_) => relu_fwd_buf(x),
        UnaryBackwardFn::Mean(_) => mean_buf(x),
    }
}

/// The tensor a binary operator appends: the forward buffer, the
/// disjunction of the operands' gradient requirements, and — exactly when
/// that disjunction holds — provenance naming the operand handles.
pub open spec fn binary_result(
    s: Seq<TensorModel>,
    l: TensorRef,
    r: TensorRef,
    rule: BinaryBackwardFn,
) -> TensorModel {
    let rg = s[l.id()].requires_grad || s[r.id()].requires_grad;
    TensorModel {
        data: binary_fwd(rule, s[l.id()].data, s[r.id()].data),
        requires_grad: rg,
        is_leaf: !rg,
        grad: None,
        prov: if rg {
            Some(Node::Binary { tensors: (l, r), backward_fn: rule })
        } else {
            None
        },
    }
}

/// The tensor a unary operator appends, built like a binary one from its
/// single operand.
pub open spec fn unary_result(s: Seq<TensorModel>, x: TensorRef, rule: UnaryBackwardFn) -> TensorModel {
    let rg = s[x.id()].requires_grad;
    TensorModel {
        data: unary_fwd(rule, s[x.id()].data),
        requires_grad: rg,
        is_leaf: !rg,
        grad: None,
        prov: if rg {
            Some(Node::Unary { tensor: x, backward_fn: rule })
        } else {
            None
        },
    }
}

/// Appends the result tensor of a binary operator whose forward buffer
/// has already been computed.
fn record_binary(
    g: &mut Graph,
    a: TensorRef,
    b: TensorRef,
    rule: BinaryBackwardFn,
    data: Buffer,
) -> (r: TensorRef)
    requires
        old(g).wf(),
        ok_ref(old(g)@, a),
        ok_ref(old(g)@, b),
        data.wf(),
        data@ == binary_fwd(rule, old(g)@[a.id()].data, old(g)@[b.id()].data),
        binary_shape_ok(rule, old(g)@[a.id()].data, old(g)@[b.id()].data, data@),
    ensures
        final(g)@ =~= old(g)@.push(binary_result(old(g)@, a, b, rule)),
        r.id() == old(g)@.len(),
        final(g).wf(),
{
    let rg = g.requires_grad(a) || g.requires_grad(b);
    let prov = if rg {
        Some(Node::Binary { tensors: (a, b), backward_fn: rule })
    } else {
        None
    };
    let t = Tensor::assemble(data, rg, !rg, None, prov);
    proof {
        assert(t@ =~= binary_result(g@, a, b, rule));
        assert(tensor_wf(t@));
        assert(node_ok(g@.push(t@), g@.len() as int));
    }
    g.record(t)
}

/// Appends the result tensor of a unary operator whose forward buffer has
/// already been computed.
pub(crate) fn record_unary_op(g: &mut Graph, x: TensorRef, rule: UnaryBackwardFn, data: Buffer) -> (r: TensorRef)
    requires
        old(g).wf(),
        ok_ref(old(g)@, x),
        data.wf(),
        data@ == unary_fwd(rule, old(g)@[x.id()].data),
        unary_shape_ok(rule, old(g)@[x.id()].data, data@),
    ensures
        final(g)@ =~= old(g)@.push(unary_result(old(g)@, x, rule)),
        r.id() == old(g)@.len(),
        final(g).wf(),
{
    let rg = g.requires_grad(x);
    let prov = if rg {
        Some(Node::Unary { tensor: x, backward_fn: rule })
    } else {
        None
    };
    let t = Tensor::assemble(data, rg, !rg, None, prov);
    proof {
        assert(t@ =~= unary_result(g@, x, rule));
        assert(tensor_wf(t@));
        assert(node_ok(g@.push(t@), g@.len() as int));
    }
    g.record(t)
}

impl TensorRef {
    /// Elementwise addition; fails exactly when the shapes differ.
    pub fn add(&self, g: &mut Graph, other: TensorRef) -> (res: Result<TensorRef, TensorError>)
        requires
            old(g).wf(),
            ok_ref(old(g)@, *self),
            ok_ref(old(g)@, other),
        ensures
            match res {
                Ok(r) => {
                    &&& old(g)@[self.id()].data.shape == old(g)@[other.id()].data.shape
                    &&& r.id() == old(g)@.len()
                    &&& final(g)@ =~= old(g)@.push(
                        binary_result(old(g)@, *self, other, BinaryBackwardFn::Add(AddBackward)),
                    )
                    &&& final(g).wf()
                },
                Err(e) => {
                    &&& e == TensorError::Shape
                    &&& old(g)@[self.id()].data.shape != old(g)@[other.id()].data.shape
                    &&& final(g)@ == old(g)@
                },
            },
    {
        let ok = {
            let x = g.data(*self);
            let y = g.data(other);
            x.shape().matches(y.shape())
        };
        if !ok {
            return Err(TensorError::Shape);
        }
        let out = {
            let x = g.data(*self);
            let y = g.data(other);
            proof {
                assert(tensor_wf(g@[self.id()]));
                assert(tensor_wf(g@[other.id()]));
            }
            x.ew_add(y)
        };
        Ok(record_binary(g, *self, other, BinaryBackwardFn::Add(AddBackward), out))
    }

    /// Elementwise subtraction; fails exactly when the shapes differ.
    pub fn sub(&self, g: &mut Graph, other: TensorRef) -> (res: Result<TensorRef, TensorError>)
        requires
            old(g).wf(),
            ok_ref(old(g)@, *self),
            ok_ref(old(g)@, other),
        ensures
            match res {
                Ok(r) => {
                    &&& old(g)@[self.id()].data.shape == old(g)@[other.id()].data.shape
                    &&& r.id() == old(g)@.len()
                    &&& final(g)@ =~= old(g)@.push(
                        binary_result(old(g)@, *self, other, BinaryBackwardFn::Sub(SubBackward)),
                    )
                    &&& final(g).wf()
                },
                Err(e) => {
                    &&& e == TensorError::Shape
                    &&& old(g)@[self.id()].data.shape != old(g)@[other.id()].data.shape
                    &&& final(g)@ == old(g)@
                },
            },
    {
        let ok = {
            let x = g.data(*self);
            let y = g.data(other);
            x.shape().matches(y.shape())
        };
        if !ok {
            return Err(TensorError::Shape);
        }
        let out = {
            let x = g.data(*self);
            let y = g.data(other);
            proof {
                assert(tensor_wf(g@[self.id()]));
                assert(tensor_wf(g@[other.id()]));
            }
            x.ew_sub(y)
        };
        Ok(record_binary(g, *self, other, BinaryBackwardFn::Sub(SubBackward), out))
    }

    /// Elementwise multiplication; fails exactly when the shapes differ.
    pub fn mul(&self, g: &mut Graph, other: TensorRef) -> (res: Result<TensorRef, TensorError>)
        requires
            old(g).wf(),
            ok_ref(old(g)@, *self),
            ok_ref(old(g)@, other),
        ensures
            match res {
                Ok(r) => {
                    &&& old(g)@[self.id()].data.shape == old(g)@[other.id()].data.shape
                    &&& r.id() == old(g)@.len()
                    &&& final(g)@ =~= old(g)@.push(
                        binary_result(old(g)@, *self, other, BinaryBackwardFn::Mul(MulBackward)),
                    )
                    &&& final(g).wf()
                },
                Err(e) => {
                    &&& e == TensorError::Shape
                    &&& old(g)@[self.id()].data.shape != old(g)@[other.id()].data.shape
                    &&& final(g)@ == old(g)@
                },
            },
    {
        let ok = {
            let x = g.data(*self);
            let y = g.data(other);
            x.shape().matches(y.shape())
        };
        if !ok {
            return Err(TensorError::Shape);
        }
        let out = {
            let x = g.data(*self);
            let y = g.data(other);
            proof {
                assert(tensor_wf(g@[self.id()]));
                assert(tensor_wf(g@[other.id()]));
            }
            x.ew_mul(y)
        };
        Ok(record_binary(g, *self, other, BinaryBackwardFn::Mul(MulBackward), out))
    }

    /// Elementwise division; fails exactly when the shapes differ.
    pub fn div(&self, g: &mut Graph, other: TensorRef) -> (res: Result<TensorRef, TensorError>)
        requires
            old(g).wf(),
            ok_ref(old(g)@, *self),
            ok_ref(old(g)@, other),
        ensures
            match res {
                Ok(r) => {
                    &&& old(g)@[self.id()].data.shape == old(g)@[other.id()].data.shape
                    &&& r.id() == old(g)@.len()
                    &&& final(g)@ =~= old(g)@.push(
                        binary_result(old(g)@, *self, other, BinaryBackwardFn::Div(DivBackward)),
                    )
                    &&& final(g).wf()
                },
                Err(e) => {
                    &&& e == TensorError::Shape
                    &&& old(g)@[self.id()].data.shape != old(g)@[other.id()].data.shape
                    &&& final(g)@ == old(g)@
                },
            },
    {
        let ok = {
            let x = g.data(*self);
            let y = g.data(other);
            x.shape().matches(y.shape())
        };
        if !ok {
            return Err(TensorError::Shape);
        }
        let out = {
            let x = g.data(*self);
            let y = g.data(other);
            proof {
                assert(tensor_wf(g@[self.id()]));
                assert(tensor_wf(g@[other.id()]));
            }
            x.ew_div(y)
        };
        Ok(record_binary(g, *self, other, BinaryBackwardFn::Div(DivBackward), out))
    }

    /// Matrix product of two two-dimensional tensors; fails exactly when
    /// an operand is not two-dimensional or the inner dimensions differ.
    pub fn dot(&self, g: &mut Graph, other: TensorRef) -> (res: Result<TensorRef, TensorError>)
        requires
            old(g).wf(),
            ok_ref(old(g)@, *self),
            ok_ref(old(g)@, other),
        ensures
            match res {
                Ok(r) => {
                    &&& old(g)@[self.id()].data.shape.len() == 2
                    &&& old(g)@[other.id()].data.shape.len() == 2
                    &&& old(g)@[self.id()].data.shape[1] == old(g)@[other.id()].data.shape[0]
                    &&& r.id() == old(g)@.len()
                    &&& final(g)@ =~= old(g)@.push(
                        binary_result(
                            old(g)@,
                            *self,
                            other,
                            BinaryBackwardFn::MatMul(MatMulBackward),
                        ),
                    )
                    &&& final(g).wf()
                },
                Err(e) => {
                    &&& e == TensorError::Shape
                    &&& !(old(g)@[self.id()].data.shape.len() == 2
                        && old(g)@[other.id()].data.shape.len() == 2 && old(g)@[self.id()].data.shape[1]
                        == old(g)@[other.id()].data.shape[0])
                    &&& final(g)@ == old(g)@
                },
            },
    {
        let ok = {
            let x = g.data(*self);
            let y = g.data(other);
            let xd = x.shape().dims();
            let yd = y.shape().dims();
            xd.len() == 2 && yd.len() == 2 && xd[1] == yd[0]
        };
        if !ok {
            return Err(TensorError::Shape);
        }
        let out = {
            let x = g.data(*self);
            let y = g.data(other);
            proof {
                assert(tensor_wf(g@[self.id()]));
                assert(tensor_wf(g@[other.id()]));
            }
            x.matmul(y)
        };
        Ok(record_binary(g, *self, other, BinaryBackwardFn::MatMul(MatMulBackward), out))
    }

    /// The scalar mean of all elements; `None` exactly when the tensor is
    /// empty.
    pub fn mean(&self, g: &mut Graph) -> (res: Option<TensorRef>)
        requires
            old(g).wf(),
            ok_ref(old(g)@, *self),
        ensures
            match res {
                Some(r) => {
                    &&& old(g)@[self.id()].data.data.len() > 0
                    &&& r.id() == old(g)@.len()
                    &&& final(g)@ =~= old(g)@.push(
                        unary_result(old(g)@, *self, UnaryBackwardFn::Mean(MeanBackward)),
                    )
                    &&& final(g).wf()
                },
                None => {
                    &&& old(g)@[self.id()].data.data.len() == 0
                    &&& final(g)@ == old(g)@
                },
            },
    {
        let n = g.data(*self).len();
        if n == 0 {
            return None;
        }
        let out = {
            let x = g.data(*self);
            proof {
                assert(tensor_wf(g@[self.id()]));
            }
            x.mean_fwd()
        };
        Some(record_unary_op(g, *self, UnaryBackwardFn::Mean(MeanBackward), out))
    }

    /// Each element raised to the natural power `exponent`.
    pub fn pow(&self, g: &mut Graph, exponent: u32) -> (r: TensorRef)
        requires
            old(g).wf(),
            ok_ref(old(g)@, *self),
        ensures
            r.id() == old(g)@.len(),
            final(g)@ =~= old(g)@.push(
                unary_result(old(g)@, *self, UnaryBackwardFn::Pow(PowBackward(exponent))),
            ),
            final(g).wf(),
    {
        let out = {
            let x = g.data(*self);
            proof {
                assert(tensor_wf(g@[self.id()]));
            }
            x.pow_fwd(exponent)
        };
        record_unary_op(g, *self, UnaryBackwardFn::Pow(PowBackward(exponent)), out)
    }
}

} // verus!
