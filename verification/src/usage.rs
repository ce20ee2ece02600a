use vstd::prelude::*;

verus! {

/// How a compute program may access a bound buffer.
#[derive(Clone, Copy, Debug, PartialEq, Eq, Structural)]
pub enum GpuBufferUsage {
    /// Read-only object, declared `var<storage, read>` in the shader.
    ReadOnly,
    /// Read-write object, declared `var<storage, read_write>` in the shader.
    ReadWrite,
}

impl GpuBufferUsage {
    /// Whether a storage binding with this access mode carries the read-only flag.
    pub open spec fn spec_read_only(self) -> bool {
        self == GpuBufferUsage::ReadOnly
    }

    /// Whether a storage binding with this access mode carries the read-only flag.
    pub fn read_only(self) -> (flag: bool)
        ensures
            flag == self.spec_read_only(),
    {
        self == GpuBufferUsage::ReadOnly
    }
}

} // verus!
