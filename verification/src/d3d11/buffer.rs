//! Vertex and index buffers of the modern interface.

use vstd::prelude::*;
use crate::abi::d3d11::BufferDesc;
use crate::base::check_hresult;
use crate::base::enums::{MemoryPool, UsageFlags};
use crate::d3d11::util::{d3d_usage_to_d3d11, usage_translation};
use crate::error::{Error, Result};

verus! {

/// Wrapper for a vertex/index buffer.
#[derive(Debug, Copy, Clone, PartialEq, Eq, Structural)]
pub struct Buffer {
    pub buffer: usize,
    pub desc: BufferDesc,
}

/// The description of a buffer of the given length for the given legacy
/// usage and pool. The bind flags are those of the kind of buffer, not those
/// of the usage.
pub open spec fn buffer_desc_of(len: u32, usage: UsageFlags, pool: MemoryPool, bind_flags: u32)
    -> Result<BufferDesc> {
    match usage_translation(usage, pool) {
        Ok((modern_usage, _, cpu_flags)) => Ok(
            BufferDesc {
                byte_width: len,
                usage: modern_usage,
                bind_flags,
                cpu_access_flags: cpu_flags,
                misc_flags: 0,
                structure_byte_stride: 0,
            },
        ),
        Err(e) => Err(e),
    }
}

impl Buffer {
    /// Describes a vertex/index buffer that is to be created.
    pub fn new(len: u32, usage: UsageFlags, pool: MemoryPool, bind_flags: u32) -> (res: Result<
        BufferDesc,
    >)
        ensures
            res == buffer_desc_of(len, usage, pool, bind_flags),
    {
        match d3d_usage_to_d3d11(usage, pool) {
            Ok((modern_usage, _, cpu_flags)) => Ok(
                BufferDesc {
                    byte_width: len,
                    usage: modern_usage,
                    bind_flags,
                    cpu_access_flags: cpu_flags,
                    misc_flags: 0,
                    structure_byte_stride: 0,
                },
            ),
            Err(e) => Err(e),
        }
    }

    /// Takes what came of the creation of a buffer from `desc`.
    pub fn created(desc: BufferDesc, result: i32, buffer: usize) -> (res: Result<Buffer>)
        ensures
            res == (if result == 0 {
                Ok::<Buffer, Error>(Buffer { buffer, desc })
            } else {
                Err::<Buffer, Error>(Error::DriverInternalError)
            }),
    {
        match check_hresult(result) {
            Error::Success => Ok(Buffer { buffer, desc }),
            e => Err(e),
        }
    }

    /// Retrieves this buffer as a resource.
    pub fn as_resource(&self) -> (res: usize)
        ensures
            res == self.buffer,
    {
        self.buffer
    }

    /// Retrieves the description of this buffer.
    pub fn desc(&self) -> (res: BufferDesc)
        ensures
            res == self.desc,
    {
        self.desc
    }
}

} // verus!
