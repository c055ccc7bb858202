//! Element widths a storage buffer can carry.

use vstd::prelude::*;

verus! {

/// The IEEE-754 width of a storage buffer's elements, named by bit count.
#[derive(Clone, Copy, Debug, PartialEq, Eq, Structural)]
pub enum DType {
    F32,
    F64,
}

} // verus!
