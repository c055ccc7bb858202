//! How a tensor's elements sit inside a storage buffer: dimensions,
//! per-dimension strides, and the offset of the first element.

use vstd::prelude::*;

use crate::buffer::Shape;

verus! {

/// The placement of a buffer's elements in storage.
#[derive(Clone, Debug)]
pub struct Layout {
    pub shape: Shape,
    pub stride: Vec<usize>,
    pub start_offset: usize,
}

impl Layout {
    /// A layout from its parts: the dimensions, the step each dimension
    /// takes through storage, and the first element's offset.
    pub fn new(shape: Shape, stride: Vec<usize>, start_offset: usize) -> (r: Layout)
        ensures
            r.shape@ == shape@,
            r.stride@ == stride@,
            r.start_offset == start_offset,
    {
        Layout { shape, stride, start_offset }
    }
}

} // verus!
