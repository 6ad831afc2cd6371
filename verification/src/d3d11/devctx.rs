//! The immediate context of a modern device, in which commands are run.

use vstd::prelude::*;
use crate::abi::d3d11::{
    MappedSubresource, D3D11_MAP_FLAG_DO_NOT_WAIT, D3D11_MAP_READ, D3D11_MAP_READ_WRITE,
    D3D11_MAP_WRITE, D3D11_MAP_WRITE_DISCARD, D3D11_MAP_WRITE_NO_OVERWRITE,
};
use crate::abi::d3d9::LockedRect;
use crate::abi::dxgi::DXGI_ERROR_WAS_STILL_DRAWING;
use crate::base::enums::{LockFlags, UsageFlags};
use crate::error::{Error, Result};

verus! {

/// Names the immediate context of a modern device.
#[derive(Debug, Copy, Clone, PartialEq, Eq, Structural)]
pub struct DeviceContext {
    pub ctx: usize,
}

/// A map that the platform is asked for.
#[derive(Debug, Copy, Clone, PartialEq, Eq, Structural)]
pub struct MapRequest {
    /// The resource to map.
    pub resource: usize,
    /// The part of the resource to map.
    pub subresource: u32,
    /// How the processor is going to access the memory.
    pub map_type: u32,
    /// Whether to wait until the device has finished with the resource.
    pub map_flags: u32,
}

/// The end of a map that the platform is asked for.
#[derive(Debug, Copy, Clone, PartialEq, Eq, Structural)]
pub struct UnmapRequest {
    pub resource: usize,
    pub subresource: u32,
}

/// How a resource is mapped. A resource that is only written to is mapped
/// for writing: without overwriting where that is asked for, discarding the
/// old contents where that is asked for, plainly otherwise. Every other
/// resource is mapped for reading, and for writing too unless the lock is
/// read-only; on such a resource discard and no-overwrite mean nothing.
pub open spec fn map_type_of(flags: LockFlags, usage: UsageFlags) -> u32 {
    if usage.bits & UsageFlags::WRITE_ONLY != 0 {
        if flags.bits & LockFlags::NO_OVERWRITE != 0 {
            D3D11_MAP_WRITE_NO_OVERWRITE
        } else if flags.bits & LockFlags::DISCARD != 0 {
            D3D11_MAP_WRITE_DISCARD
        } else {
            D3D11_MAP_WRITE
        }
    } else {
        if flags.bits & LockFlags::READ_ONLY != 0 {
            D3D11_MAP_READ
        } else {
            D3D11_MAP_READ_WRITE
        }
    }
}

/// The flags of a map: only whether it may refuse instead of waiting.
pub open spec fn map_flags_of(flags: LockFlags) -> u32 {
    if flags.bits & LockFlags::DO_NOT_WAIT != 0 {
        D3D11_MAP_FLAG_DO_NOT_WAIT
    } else {
        0
    }
}

/// The distance between two rows as the legacy interface holds it: the same
/// 32 bits read as a signed number.
pub open spec fn pitch_of(row_pitch: u32) -> i32 {
    if row_pitch <= i32::MAX {
        row_pitch as i32
    } else {
        (row_pitch - 0x1_0000_0000) as i32
    }
}

/// What a finished map means to the caller of a lock. A refusal of a map
/// that would have had to wait is told apart from every other failure.
pub open spec fn map_outcome(result: i32, mapped: MappedSubresource) -> Result<LockedRect> {
    if result == 0 {
        Ok(LockedRect { pitch: pitch_of(mapped.row_pitch), bits: mapped.data })
    } else if result == DXGI_ERROR_WAS_STILL_DRAWING {
        Err(Error::WasStillDrawing)
    } else {
        Err(Error::DriverInternalError)
    }
}

/// Says how a subresource is to be mapped for a lock with the given flags,
/// on a resource of the given usage.
pub fn map_request(res: usize, subres: u32, flags: LockFlags, usage: UsageFlags) -> (req:
    MapRequest)
    ensures
        req == (MapRequest {
            resource: res,
            subresource: subres,
            map_type: map_type_of(flags, usage),
            map_flags: map_flags_of(flags),
        }),
{
    let map_type = if usage.intersects(UsageFlags::WRITE_ONLY) {
        // No-overwrite must come first, since in the modern interface
        // it includes what discard allows.
        if flags.intersects(LockFlags::NO_OVERWRITE) {
            D3D11_MAP_WRITE_NO_OVERWRITE
        } else if flags.intersects(LockFlags::DISCARD) {
            D3D11_MAP_WRITE_DISCARD
        } else {
            D3D11_MAP_WRITE
        }
    } else {
        // Either the app forgot to use write-only, or it really wants to
        // read the data.
        if flags.intersects(LockFlags::READ_ONLY) {
            D3D11_MAP_READ
        } else {
            D3D11_MAP_READ_WRITE
        }
    };

    let map_flags = if flags.intersects(LockFlags::DO_NOT_WAIT) {
        D3D11_MAP_FLAG_DO_NOT_WAIT
    } else {
        0
    };

    MapRequest { resource: res, subresource: subres, map_type, map_flags }
}

/// Takes what came of a map: the locked rectangle, or the error.
pub fn map_result(result: i32, mapped: MappedSubresource) -> (res: Result<LockedRect>)
    ensures
        res == map_outcome(result, mapped),
{
    if result == 0 {
        let pitch: i32 = if mapped.row_pitch <= 0x7FFF_FFFF {
            mapped.row_pitch as i32
        } else {
            (mapped.row_pitch as i64 - 0x1_0000_0000) as i32
        };
        Ok(LockedRect { pitch, bits: mapped.data })
    } else if result == DXGI_ERROR_WAS_STILL_DRAWING {
        Err(Error::WasStillDrawing)
    } else {
        Err(Error::DriverInternalError)
    }
}

impl DeviceContext {
    /// Wraps the immediate context of a device.
    pub fn new(ctx: usize) -> (res: Self)
        ensures
            res.ctx == ctx,
    {
        Self { ctx }
    }

    /// Says how a resource is to be mapped.
    pub fn map(&self, res: usize, subres: u32, flags: LockFlags, usage: UsageFlags) -> (req:
        MapRequest)
        ensures
            req == (MapRequest {
                resource: res,
                subresource: subres,
                map_type: map_type_of(flags, usage),
                map_flags: map_flags_of(flags),
            }),
    {
        map_request(res, subres, flags, usage)
    }

    /// Takes what came of a map: the locked rectangle, or the error.
    pub fn mapped(result: i32, mapped: MappedSubresource) -> (res: Result<LockedRect>)
        ensures
            res == map_outcome(result, mapped),
    {
        map_result(result, mapped)
    }

    /// Says which resource is to be unmapped.
    pub fn unmap(&self, res: usize, subres: u32) -> (req: UnmapRequest)
        ensures
            req == (UnmapRequest { resource: res, subresource: subres }),
    {
        UnmapRequest { resource: res, subresource: subres }
    }
}

/// A lock with the discard flag on a resource that is not write-only is not
/// refused: the flag is ignored, and the resource is mapped for reading and
/// writing.
pub proof fn discard_is_ignored_on_readable_resources(flags: LockFlags, usage: UsageFlags)
    requires
        usage.bits & UsageFlags::WRITE_ONLY == 0,
        flags.bits & LockFlags::READ_ONLY == 0,
    ensures
        map_type_of(flags, usage) == D3D11_MAP_READ_WRITE,
{
}

} // verus!
