//! Storage buffers, tagged by the device that owns them.

use vstd::prelude::*;

use crate::device::Device;
use crate::dtype::DType;

verus! {

/// A host-memory buffer of element bit patterns, one vector per width.
#[derive(Clone, Debug)]
pub enum CpuStorage {
    F32(Vec<u32>),
    F64(Vec<u64>),
}

/// The host processor.
#[derive(Clone, Copy, Debug, PartialEq, Eq, Structural)]
pub struct CpuDevice;

/// A storage buffer on whichever device owns it.
#[derive(Clone, Debug)]
pub enum Storage {
    Cpu(CpuStorage),
}

impl CpuStorage {
    /// The width of the elements this buffer carries.
    pub open spec fn spec_dtype(&self) -> DType {
        match self {
            CpuStorage::F32(_) => DType::F32,
            CpuStorage::F64(_) => DType::F64,
        }
    }

    /// The width of the elements this buffer carries.
    pub fn dtype(&self) -> (r: DType)
        ensures
            r == self.spec_dtype(),
    {
        match self {
            CpuStorage::F32(_) => DType::F32,
            CpuStorage::F64(_) => DType::F64,
        }
    }
}

impl Storage {
    /// The device that owns this buffer.
    pub fn device(&self) -> (r: Device)
        ensures
            r == Device::Cpu,
    {
        match self {
            Storage::Cpu(_) => Device::Cpu,
        }
    }

    /// The width of the elements this buffer carries.
    pub fn dtype(&self) -> (r: DType)
        ensures
            r == match self {
                Storage::Cpu(s) => s.spec_dtype(),
            },
    {
        match self {
            Storage::Cpu(s) => s.dtype(),
        }
    }
}

} // verus!
