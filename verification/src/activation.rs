//! Activation operators.

use vstd::prelude::*;

use crate::arithmetic::{record_unary_op, unary_result};
use crate::backward::{ReluBackward, UnaryBackwardFn};
use crate::graph::{ok_ref, Graph};
use crate::tensor::{tensor_wf, TensorRef};

verus! {

/// The rectifier `max(0, x)`, elementwise: zero for elements strictly
/// below zero, the element itself otherwise.
pub fn relu(g: &mut Graph, tensor: TensorRef) -> (r: TensorRef)
    requires
        old(g).wf(),
        ok_ref(old(g)@, tensor),
    ensures
        r.id() == old(g)@.len(),
        final(g)@ =~= old(g)@.push(
            unary_result(old(g)@, tensor, UnaryBackwardFn::Relu(ReluBackward)),
        ),
        final(g).wf(),
{
    let out = {
        let x = g.data(tensor);
        proof {
            assert(tensor_wf(g@[tensor.id()]));
        }
        x.relu_fwd()
    };
    record_unary_op(g, tensor, UnaryBackwardFn::Relu(ReluBackward), out)
}

} // verus!
