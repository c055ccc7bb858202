//! Building blocks for networks on top of the engine: the module
//! interface its consumers implement, and the mean-squared-error loss.

use vstd::prelude::*;

use crate::arithmetic::{binary_result, unary_result};
use crate::backward::{
    BinaryBackwardFn, MeanBackward, MulBackward, SubBackward, UnaryBackwardFn,
};
use crate::error::TensorError;
use crate::graph::{ok_ref, Graph};
use crate::tensor::{lemma_ref_eq, ref_at, TensorModel, TensorRef};

verus! {

/// A network layer: applies itself to an input tensor in a graph and
/// names the parameter tensors an optimizer should update.
pub trait Module {
    /// The output tensor of the layer for the given input.
    fn forward(&self, g: &mut Graph, input: TensorRef) -> Result<TensorRef, TensorError>;

    /// The layer's parameter tensors.
    fn params(&self) -> Vec<TensorRef>;
}

/// The graph after the mean-squared-error loss of `output` against
/// `target` has been built: the difference, its square, and the scalar
/// mean, in that order.
pub open spec fn mse_loss_model(
    s: Seq<TensorModel>,
    output: TensorRef,
    target: TensorRef,
) -> Seq<TensorModel> {
    let n0 = s.len() as int;
    let s1 = s.push(binary_result(s, output, target, BinaryBackwardFn::Sub(SubBackward)));
    let s2 = s1.push(
        binary_result(s1, ref_at(n0), ref_at(n0), BinaryBackwardFn::Mul(MulBackward)),
    );
    s2.push(unary_result(s2, ref_at(n0 + 1), UnaryBackwardFn::Mean(MeanBackward)))
}

/// The mean of the squared elementwise difference of two tensors: the
/// loss is the scalar mean of `(output - target) * (output - target)`.
/// Fails, touching nothing, exactly when the shapes differ or the
/// tensors are empty.
pub fn mse_loss(g: &mut Graph, output: TensorRef, target: TensorRef) -> (res: Result<
    TensorRef,
    TensorError,
>)
    requires
        old(g).wf(),
        ok_ref(old(g)@, output),
        ok_ref(old(g)@, target),
    ensures
        match res {
            Ok(r) => {
                &&& old(g)@[output.id()].data.shape == old(g)@[target.id()].data.shape
                &&& old(g)@[output.id()].data.data.len() > 0
                &&& r == ref_at(old(g)@.len() as int + 2)
                &&& final(g)@ =~= mse_loss_model(old(g)@, output, target)
                &&& final(g).wf()
            },
            Err(e) => {
                &&& e == TensorError::Shape
                &&& !(old(g)@[output.id()].data.shape == old(g)@[target.id()].data.shape
                    && old(g)@[output.id()].data.data.len() > 0)
                &&& final(g)@ == old(g)@
            },
        },
{
    let n0 = g.len();
    let fits = {
        let x = g.data(output);
        let y = g.data(target);
        x.shape().matches(y.shape()) && x.len() > 0
    };
    if !fits {
        return Err(TensorError::Shape);
    }
    let diff = match output.sub(g, target) {
        Ok(v) => v,
        Err(e) => {
            proof {
                assert(false);
            }
            return Err(e);
        },
    };
    let sq = match diff.mul(g, diff) {
        Ok(v) => v,
        Err(e) => {
            proof {
                assert(false);
            }
            return Err(e);
        },
    };
    let loss = match sq.mean(g) {
        Some(v) => v,
        None => {
            proof {
                assert(false);
            }
            return Err(TensorError::Shape);
        },
    };
    let nf = g.len();
    proof {
        assert(nf == n0 + 3);
        crate::tensor::lemma_ref_at_id(n0 as int);
        crate::tensor::lemma_ref_at_id(n0 as int + 1);
        crate::tensor::lemma_ref_at_id(n0 as int + 2);
        lemma_ref_eq(diff, ref_at(n0 as int));
        lemma_ref_eq(sq, ref_at(n0 as int + 1));
        lemma_ref_eq(loss, ref_at(n0 as int + 2));
        assert(g@ =~= mse_loss_model(old(g)@, output, target));
    }
    Ok(loss)
}

} // verus!
