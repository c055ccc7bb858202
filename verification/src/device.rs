//! Compute devices.  Only the host processor exists here; the enums keep
//! the seam where another backend would attach.

use vstd::prelude::*;

use crate::buffer::Shape;

verus! {

/// Where a storage buffer lives.
#[derive(Clone, Copy, Debug, PartialEq, Eq, Structural)]
pub enum DeviceLocation {
    Cpu,
}

/// A compute device.
#[derive(Clone, Copy, Debug, PartialEq, Eq, Structural)]
pub enum Device {
    Cpu,
}

impl Device {
    /// Where this device keeps its buffers.
    pub fn location(&self) -> (r: DeviceLocation)
        ensures
            r == DeviceLocation::Cpu,
    {
        DeviceLocation::Cpu
    }
}

/// Values a leaf tensor can be built from: anything that can report the
/// shape its elements fill, or `None` when they fill none consistently.
pub trait NdArray {
    /// The shape of the value's elements, or `None` when the value is not
    /// rectangular.
    fn shape(&self) -> Option<Shape>;
}

impl NdArray for u64 {
    fn shape(&self) -> Option<Shape> {
        Some(Shape::new(Vec::new()))
    }
}

impl NdArray for Vec<u64> {
    fn shape(&self) -> Option<Shape> {
        let mut dims: Vec<usize> = Vec::new();
        dims.push(self.len());
        Some(Shape::new(dims))
    }
}

impl NdArray for Vec<Vec<u64>> {
    fn shape(&self) -> Option<Shape> {
        let m = self.len();
        let n = if m == 0 {
            0
        } else {
            self[0].len()
        };
        let mut i: usize = 0;
        while i < m
            invariant
                0 <= i <= m,
                m == self@.len(),
            decreases m - i,
        {
            if self[i].len() != n {
                return None;
            }
            i = i + 1;
        }
        let mut dims: Vec<usize> = Vec::new();
        dims.push(m);
        dims.push(n);
        Some(Shape::new(dims))
    }
}

} // verus!
