//! Provenance nodes: how a tensor was produced.
//!
//! A node records the operator that produced a tensor, as the matching
//! backward rule, together with handles to the operand tensors.  During
//! the backward pass the traversal dispatches on the node to compute and
//! route gradients to the operands.

use vstd::prelude::*;

use crate::backward::{BinaryBackwardFn, UnaryBackwardFn};
use crate::tensor::TensorRef;

verus! {

/// The provenance of a tensor produced by a differentiable operator:
/// the operand handle(s) and the operator's backward rule.
#[derive(Clone, Copy, Debug)]
pub enum Node {
    Unary { tensor: TensorRef, backward_fn: UnaryBackwardFn },
    Binary { tensors: (TensorRef, TensorRef), backward_fn: BinaryBackwardFn },
}

} // verus!
