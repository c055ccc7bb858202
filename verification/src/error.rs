//! The failures a tensor operation can report.
//!
//! Only shape failures can arise at run time: element types are fixed by
//! the element representation, so no type mismatch can meet an operator,
//! and all mutation goes through exclusive access to the owning graph, so
//! no overlapping borrow can be attempted.

use vstd::prelude::*;

verus! {

/// A reportable failure: the operand shapes do not fit the operator's
/// shape contract, or backward was invoked on a non-scalar tensor.
#[derive(Clone, Copy, Debug, PartialEq, Eq, Structural)]
pub enum TensorError {
    Shape,
}

impl TensorError {
    /// A short description of the failure.
    pub fn message(&self) -> &'static str {
        match self {
            TensorError::Shape => "operand shapes do not fit the operator",
        }
    }
}

} // verus!
