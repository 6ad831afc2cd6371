//! Vertex and index buffers.

use vstd::prelude::*;
use crate::abi::d3d11::MappedSubresource;
use crate::abi::d3d9;
use crate::abi::d3d9::{IndexBufferDesc, VertexBufferDesc};
use crate::base::enums::{LockFlags, MemoryPool, ResourceType, UsageFlags};
use crate::d3d11::devctx::{map_flags_of, map_outcome, map_request, map_result, map_type_of};
use crate::d3d11::{Buffer, MapRequest, UnmapRequest};
use crate::dev::resource::Resource;
use crate::error::Result;

verus! {

/// The address of the byte at `offset` in memory that is mapped at `bits`.
/// Addresses wrap around as the machine's do.
pub open spec fn offset_address(bits: usize, offset: u32) -> usize {
    if bits + offset > usize::MAX {
        (bits + offset - (usize::MAX + 1)) as usize
    } else {
        (bits + offset) as usize
    }
}

/// What a finished map of a buffer means to the caller of a lock: the
/// address of the byte at `offset`, or the error.
pub open spec fn buffer_lock_outcome(result: i32, mapped: MappedSubresource, offset: u32)
    -> Result<usize> {
    match map_outcome(result, mapped) {
        Ok(rect) => Ok(offset_address(rect.bits, offset)),
        Err(e) => Err(e),
    }
}

fn locked_at(result: i32, mapped: MappedSubresource, offset: u32) -> (res: Result<usize>)
    ensures
        res == buffer_lock_outcome(result, mapped, offset),
{
    match map_result(result, mapped) {
        Ok(rect) => Ok(rect.bits.wrapping_add(offset as usize)),
        Err(e) => Err(e),
    }
}

/// Buffer holding vertex data.
#[derive(Debug, Copy, Clone, PartialEq, Eq, Structural)]
pub struct VertexBuffer {
    pub resource: Resource,
    pub fvf: u32,
    pub buffer: Buffer,
}

impl VertexBuffer {
    /// Creates a new vertex buffer.
    pub fn new(device: usize, pool: MemoryPool, fvf: u32, buffer: Buffer, usage: UsageFlags) -> (res:
        Self)
        ensures
            res == (VertexBuffer {
                resource: Resource {
                    device,
                    usage,
                    pool,
                    ty: ResourceType::VertexBuffer,
                    priority: 0,
                },
                fvf,
                buffer,
            }),
    {
        Self {
            resource: Resource::new(device, usage, pool, ResourceType::VertexBuffer),
            fvf,
            buffer,
        }
    }

    /// Retrieves the description of this buffer.
    pub fn get_desc(&self) -> (res: VertexBufferDesc)
        ensures
            res == (VertexBufferDesc {
                format: d3d9::D3DFMT_R32F,
                ty: d3d9::D3DRTYPE_VERTEXBUFFER,
                usage: self.resource.usage.bits,
                pool: self.resource.pool.spec_code(),
                size: self.buffer.desc.byte_width,
                fvf: self.fvf,
            }),
    {
        let desc = self.buffer.desc();

        VertexBufferDesc {
            format: d3d9::D3DFMT_R32F,
            ty: ResourceType::VertexBuffer.code(),
            usage: self.resource.usage().bits(),
            pool: self.resource.pool().code(),
            size: desc.byte_width,
            fvf: self.fvf,
        }
    }

    /// Says how the buffer is to be mapped to lock it. The whole buffer is
    /// mapped, whatever range is asked for.
    pub fn lock(&self, _offset: u32, _size: u32, flags: LockFlags) -> (req: MapRequest)
        ensures
            req == (MapRequest {
                resource: self.buffer.buffer,
                subresource: 0,
                map_type: map_type_of(flags, self.resource.usage),
                map_flags: map_flags_of(flags),
            }),
    {
        map_request(self.buffer.as_resource(), 0, flags, self.resource.usage())
    }

    /// Takes what came of the map of a lock: the address of the byte at
    /// `offset`, or the error.
    pub fn locked(&self, result: i32, mapped: MappedSubresource, offset: u32) -> (res: Result<usize>)
        ensures
            res == buffer_lock_outcome(result, mapped, offset),
    {
        locked_at(result, mapped, offset)
    }

    /// Says what is to be unmapped to unlock the buffer.
    pub fn unlock(&self) -> (req: UnmapRequest)
        ensures
            req == (UnmapRequest { resource: self.buffer.buffer, subresource: 0 }),
    {
        UnmapRequest { resource: self.buffer.as_resource(), subresource: 0 }
    }
}

/// Buffer holding vertex indices.
#[derive(Debug, Copy, Clone, PartialEq, Eq, Structural)]
pub struct IndexBuffer {
    pub resource: Resource,
    pub fmt: u32,
    pub buffer: Buffer,
}

impl IndexBuffer {
    /// Creates a new index buffer.
    pub fn new(device: usize, fmt: u32, pool: MemoryPool, buffer: Buffer, usage: UsageFlags) -> (res:
        Self)
        ensures
            res == (IndexBuffer {
                resource: Resource {
                    device,
                    usage,
                    pool,
                    ty: ResourceType::IndexBuffer,
                    priority: 0,
                },
                fmt,
                buffer,
            }),
    {
        Self {
            resource: Resource::new(device, usage, pool, ResourceType::IndexBuffer),
            fmt,
            buffer,
        }
    }

    /// Retrieves the description of this buffer.
    pub fn get_desc(&self) -> (res: IndexBufferDesc)
        ensures
            res == (IndexBufferDesc {
                format: self.fmt,
                ty: d3d9::D3DRTYPE_INDEXBUFFER,
                usage: self.resource.usage.bits,
                pool: self.resource.pool.spec_code(),
                size: self.buffer.desc.byte_width,
            }),
    {
        let desc = self.buffer.desc();

        IndexBufferDesc {
            format: self.fmt,
            ty: ResourceType::IndexBuffer.code(),
            usage: self.resource.usage().bits(),
            pool: self.resource.pool().code(),
            size: desc.byte_width,
        }
    }

    /// Says how the buffer is to be mapped to lock it. The whole buffer is
    /// mapped, whatever range is asked for.
    pub fn lock(&self, _offset: u32, _size: u32, flags: LockFlags) -> (req: MapRequest)
        ensures
            req == (MapRequest {
                resource: self.buffer.buffer,
                subresource: 0,
                map_type: map_type_of(flags, self.resource.usage),
                map_flags: map_flags_of(flags),
            }),
    {
        map_request(self.buffer.as_resource(), 0, flags, self.resource.usage())
    }

    /// Takes what came of the map of a lock: the address of the byte at
    /// `offset`, or the error.
    pub fn locked(&self, result: i32, mapped: MappedSubresource, offset: u32) -> (res: Result<usize>)
        ensures
            res == buffer_lock_outcome(result, mapped, offset),
    {
        locked_at(result, mapped, offset)
    }

    /// Says what is to be unmapped to unlock the buffer.
    pub fn unlock(&self) -> (req: UnmapRequest)
        ensures
            req == (UnmapRequest { resource: self.buffer.buffer, subresource: 0 }),
    {
        UnmapRequest { resource: self.buffer.as_resource(), subresource: 0 }
    }
}

} // verus!
