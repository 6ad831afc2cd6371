//! Translation of legacy usage flags and memory pools.

use vstd::prelude::*;
use crate::abi::d3d11::{
    D3D11_BIND_DEPTH_STENCIL, D3D11_BIND_RENDER_TARGET, D3D11_BIND_SHADER_RESOURCE,
    D3D11_CPU_ACCESS_READ, D3D11_CPU_ACCESS_WRITE, D3D11_USAGE_DYNAMIC, D3D11_USAGE_STAGING,
};
use crate::base::enums::{MemoryPool, UsageFlags};
use crate::error::{Error, Result};

verus! {

/// The flags that say that the processor writes to a resource.
pub const WRITE_USAGE: u32 = 0x0208;

/// Both kinds of processor access, for staging resources.
pub const CPU_ACCESS_READ_WRITE: u32 = 0x0003_0000;

/// The render target bind together with the depth / stencil bind.
pub const BIND_RENDER_TARGET_AND_DEPTH_STENCIL: u32 = 96;

/// Whether the usage says that the processor writes to the resource.
pub open spec fn is_written_to(uflags: UsageFlags) -> bool {
    uflags.bits & WRITE_USAGE != 0
}

/// The modern usage of a resource, or nothing where the combination of
/// flags and pool is not legal. A resource in the default pool that the
/// processor does not write to would have to be read back, which is not
/// supported.
pub open spec fn modern_usage_of(uflags: UsageFlags, pool: MemoryPool) -> Option<u32> {
    match pool {
        MemoryPool::Default => if is_written_to(uflags) {
            Some(D3D11_USAGE_DYNAMIC)
        } else {
            None
        },
        MemoryPool::Managed => Some(D3D11_USAGE_DYNAMIC),
        MemoryPool::SystemMem | MemoryPool::Scratch => if is_written_to(uflags) {
            Some(D3D11_USAGE_DYNAMIC)
        } else {
            Some(D3D11_USAGE_STAGING)
        },
    }
}

/// The processor access that goes with a modern usage: a staging resource
/// is read and written, every other one is written.
pub open spec fn cpu_access_of(usage: u32) -> u32 {
    if usage == D3D11_USAGE_STAGING {
        CPU_ACCESS_READ_WRITE
    } else {
        D3D11_CPU_ACCESS_WRITE
    }
}

/// The stages that a resource is bound to. Scratch and staging resources are
/// bound to none. Otherwise a render target or depth / stencil usage chooses
/// the bind of its name, and a resource with neither can at least be sampled
/// in a shader.
pub open spec fn bind_flags_of(uflags: UsageFlags, pool: MemoryPool, usage: u32) -> u32 {
    let render_target = uflags.bits & UsageFlags::RENDER_TARGET != 0;
    let depth_stencil = uflags.bits & UsageFlags::DEPTH_STENCIL != 0;
    if pool == MemoryPool::Scratch || usage == D3D11_USAGE_STAGING {
        0
    } else if render_target && depth_stencil {
        BIND_RENDER_TARGET_AND_DEPTH_STENCIL
    } else if render_target {
        D3D11_BIND_RENDER_TARGET
    } else if depth_stencil {
        D3D11_BIND_DEPTH_STENCIL
    } else {
        D3D11_BIND_SHADER_RESOURCE
    }
}

/// What legacy usage flags and a pool translate to: the modern usage, the
/// bind flags and the processor access flags, or the error for a
/// combination that is not legal.
pub open spec fn usage_translation(uflags: UsageFlags, pool: MemoryPool) -> Result<
    (u32, u32, u32),
> {
    match modern_usage_of(uflags, pool) {
        Some(usage) => Ok((usage, bind_flags_of(uflags, pool, usage), cpu_access_of(usage))),
        None => Err(Error::InvalidCall),
    }
}

/// Converts the usage and pool flags of a legacy buffer or texture to the
/// corresponding modern usage, bind flags and processor access flags.
///
/// Returns an error if a certain combination is invalid.
pub fn d3d_usage_to_d3d11(uflags: UsageFlags, pool: MemoryPool) -> (res: Result<(u32, u32, u32)>)
    ensures
        res == usage_translation(uflags, pool),
{
    let written_to = uflags.intersects(WRITE_USAGE);

    let usage = match pool {
        MemoryPool::Default => {
            if !written_to {
                return Err(Error::InvalidCall);
            }
            D3D11_USAGE_DYNAMIC
        },
        MemoryPool::Managed => D3D11_USAGE_DYNAMIC,
        MemoryPool::SystemMem | MemoryPool::Scratch => {
            if written_to {
                D3D11_USAGE_DYNAMIC
            } else {
                D3D11_USAGE_STAGING
            }
        },
    };

    let cpu_flags = if usage == D3D11_USAGE_STAGING {
        CPU_ACCESS_READ_WRITE
    } else {
        D3D11_CPU_ACCESS_WRITE
    };

    let render_target = uflags.intersects(UsageFlags::RENDER_TARGET);
    let depth_stencil = uflags.intersects(UsageFlags::DEPTH_STENCIL);

    let bind_flags = if matches!(pool, MemoryPool::Scratch) || usage == D3D11_USAGE_STAGING {
        0
    } else if render_target && depth_stencil {
        BIND_RENDER_TARGET_AND_DEPTH_STENCIL
    } else if render_target {
        D3D11_BIND_RENDER_TARGET
    } else if depth_stencil {
        D3D11_BIND_DEPTH_STENCIL
    } else {
        // Even if the app doesn't end up using this in a shader,
        // this is the only bind flag we could choose for it.
        D3D11_BIND_SHADER_RESOURCE
    };

    Ok((usage, bind_flags, cpu_flags))
}

/// The names of the combined flags say what they are.
pub proof fn combined_flags()
    by (bit_vector)
    ensures
        WRITE_USAGE == UsageFlags::DYNAMIC | UsageFlags::WRITE_ONLY,
        CPU_ACCESS_READ_WRITE == D3D11_CPU_ACCESS_WRITE | D3D11_CPU_ACCESS_READ,
        BIND_RENDER_TARGET_AND_DEPTH_STENCIL == D3D11_BIND_RENDER_TARGET
            | D3D11_BIND_DEPTH_STENCIL,
{
}

/// The translation depends on the flags and the pool alone: the same
/// arguments give the same result.
pub proof fn usage_translation_is_a_function(
    uflags1: UsageFlags,
    pool1: MemoryPool,
    uflags2: UsageFlags,
    pool2: MemoryPool,
)
    requires
        uflags1 == uflags2,
        pool1 == pool2,
    ensures
        usage_translation(uflags1, pool1) == usage_translation(uflags2, pool2),
{
}

/// A scratch resource is translated whatever its usage, and is bound to no
/// stage.
pub proof fn scratch_is_never_bound(uflags: UsageFlags)
    ensures
        usage_translation(uflags, MemoryPool::Scratch) is Ok,
        usage_translation(uflags, MemoryPool::Scratch).unwrap().1 == 0,
{
}

/// The one combination that is refused is a resource in the default pool
/// that the processor does not write to.
pub proof fn refused_usage(uflags: UsageFlags, pool: MemoryPool)
    ensures
        usage_translation(uflags, pool) is Err <==> pool == MemoryPool::Default && !is_written_to(
            uflags,
        ),
        usage_translation(uflags, pool) is Err ==> usage_translation(uflags, pool) == Err::<
            (u32, u32, u32),
            Error,
        >(Error::InvalidCall),
{
}

/// A staging resource is bound to no stage and can be read and written by
/// the processor; every other resource is dynamic and can be written.
pub proof fn staging_and_dynamic(uflags: UsageFlags, pool: MemoryPool)
    requires
        usage_translation(uflags, pool) is Ok,
    ensures
        ({
            let (usage, bind, cpu) = usage_translation(uflags, pool).unwrap();
            &&& usage == D3D11_USAGE_STAGING || usage == D3D11_USAGE_DYNAMIC
            &&& usage == D3D11_USAGE_STAGING ==> bind == 0 && cpu == CPU_ACCESS_READ_WRITE
            &&& usage == D3D11_USAGE_DYNAMIC ==> cpu == D3D11_CPU_ACCESS_WRITE
            &&& usage == D3D11_USAGE_STAGING <==> (pool == MemoryPool::SystemMem || pool
                == MemoryPool::Scratch) && !is_written_to(uflags)
        }),
{
}

} // verus!
