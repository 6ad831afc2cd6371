//! Type-safe enums and flag sets of the legacy interface.

use vstd::prelude::*;
use crate::abi::d3d9;

verus! {

/// Resource usage flags.
#[derive(Debug, Copy, Clone, PartialEq, Eq, Structural)]
pub struct UsageFlags {
    pub bits: u32,
}

impl UsageFlags {
    /// Indicates this resource is dynamic, i.e. will be mapped and
    /// written to frequently.
    pub const DYNAMIC: u32 = 0x0200;
    /// Resource will only be written to.
    pub const WRITE_ONLY: u32 = 0x0008;
    /// Buffer will be used for drawing points.
    pub const POINTS: u32 = 0x0040;
    /// Buffer will be used for drawing higher-order primitives.
    pub const RT_PATCHES: u32 = 0x0080;
    /// Buffer will be used for drawing N-patches.
    pub const N_PATCHES: u32 = 0x0100;
    /// Automatically generated and managed mip maps.
    pub const AUTO_GEN_MIP_MAP: u32 = 0x0400;
    /// Resource is a render target.
    pub const RENDER_TARGET: u32 = 0x0001;
    /// Resource is a depth / stencil buffer.
    pub const DEPTH_STENCIL: u32 = 0x0002;
    /// Resource is a displacement map.
    pub const DISPLACEMENT_MAP: u32 = 0x4000;
    /// Every flag that has a name.
    pub const ALL: u32 = 0x47CB;

    /// No flag at all.
    pub fn empty() -> (res: Self)
        ensures
            res.bits == 0,
    {
        UsageFlags { bits: 0 }
    }

    /// The set with exactly the given bits, if each of them has a name.
    pub fn from_bits(bits: u32) -> (res: Option<Self>)
        ensures
            res == (if bits & !Self::ALL == 0 {
                Some(UsageFlags { bits })
            } else {
                None
            }),
    {
        if bits & !Self::ALL == 0 {
            Some(UsageFlags { bits })
        } else {
            None
        }
    }

    /// The set of the given bits that have a name; the others are dropped.
    pub fn from_bits_truncate(bits: u32) -> (res: Self)
        ensures
            res.bits == bits & Self::ALL,
    {
        UsageFlags { bits: bits & Self::ALL }
    }

    /// The flags as one word.
    pub fn bits(&self) -> (res: u32)
        ensures
            res == self.bits,
    {
        self.bits
    }

    /// Whether no flag is set.
    pub fn is_empty(&self) -> (res: bool)
        ensures
            res == (self.bits == 0),
    {
        self.bits == 0
    }

    /// Whether the two sets share a flag.
    pub open spec fn spec_intersects(&self, other: u32) -> bool {
        self.bits & other != 0
    }

    /// Whether one of the flags in `other` is set.
    #[verifier::when_used_as_spec(spec_intersects)]
    pub fn intersects(&self, other: u32) -> (res: bool)
        ensures
            res == self.spec_intersects(other),
    {
        self.bits & other != 0
    }

    /// Whether every flag in `other` is set.
    pub fn contains(&self, other: u32) -> (res: bool)
        ensures
            res == (self.bits & other == other),
    {
        self.bits & other == other
    }
}

/// Resource locking (mapping) flags.
#[derive(Debug, Copy, Clone, PartialEq, Eq, Structural)]
pub struct LockFlags {
    pub bits: u32,
}

impl LockFlags {
    /// Resource will only be read from.
    pub const READ_ONLY: u32 = 0x0010;
    /// The initialized parts of the resource will not be overwritten.
    pub const NO_OVERWRITE: u32 = 0x1000;
    /// Discard the existing contents of the resource.
    pub const DISCARD: u32 = 0x2000;
    /// Return immediately if the resource is in use.
    pub const DO_NOT_WAIT: u32 = 0x4000;
    /// Do not update the dirty area with the locked rectangle.
    pub const NO_DIRTY_UPDATE: u32 = 0x8000;
    /// Every flag that has a name.
    pub const ALL: u32 = 0xF010;

    /// No flag at all.
    pub fn empty() -> (res: Self)
        ensures
            res.bits == 0,
    {
        LockFlags { bits: 0 }
    }

    /// The set with exactly the given bits, if each of them has a name.
    pub fn from_bits(bits: u32) -> (res: Option<Self>)
        ensures
            res == (if bits & !Self::ALL == 0 {
                Some(LockFlags { bits })
            } else {
                None
            }),
    {
        if bits & !Self::ALL == 0 {
            Some(LockFlags { bits })
        } else {
            None
        }
    }

    /// The set of the given bits that have a name; the others are dropped.
    pub fn from_bits_truncate(bits: u32) -> (res: Self)
        ensures
            res.bits == bits & Self::ALL,
    {
        LockFlags { bits: bits & Self::ALL }
    }

    /// The flags as one word.
    pub fn bits(&self) -> (res: u32)
        ensures
            res == self.bits,
    {
        self.bits
    }

    /// Whether no flag is set.
    pub fn is_empty(&self) -> (res: bool)
        ensures
            res == (self.bits == 0),
    {
        self.bits == 0
    }

    /// Whether the two sets share a flag.
    pub open spec fn spec_intersects(&self, other: u32) -> bool {
        self.bits & other != 0
    }

    /// Whether one of the flags in `other` is set.
    #[verifier::when_used_as_spec(spec_intersects)]
    pub fn intersects(&self, other: u32) -> (res: bool)
        ensures
            res == self.spec_intersects(other),
    {
        self.bits & other != 0
    }

    /// Whether every flag in `other` is set.
    pub fn contains(&self, other: u32) -> (res: bool)
        ensures
            res == (self.bits & other == other),
    {
        self.bits & other == other
    }
}

/// A pool of memory from which the resource was allocated.
#[derive(Debug, Copy, Clone, PartialEq, Eq, Structural)]
pub enum MemoryPool {
    /// Default resources are placed in video memory.
    Default,
    /// Managed resources are placed in video memory if possible, and are
    /// backed by system memory.
    Managed,
    /// SystemMem resources are stored in system memory.
    /// Because of this, they are not accessible in shaders.
    SystemMem,
    /// Memory allocated from system memory, not accessible by the device.
    Scratch,
}

impl MemoryPool {
    /// The number that stands for the pool in the legacy interface.
    pub open spec fn spec_code(self) -> u32 {
        match self {
            MemoryPool::Default => 0,
            MemoryPool::Managed => 1,
            MemoryPool::SystemMem => 2,
            MemoryPool::Scratch => 3,
        }
    }

    /// The number that stands for the pool in the legacy interface.
    #[verifier::when_used_as_spec(spec_code)]
    pub fn code(self) -> (res: u32)
        ensures
            res == self.spec_code(),
    {
        match self {
            MemoryPool::Default => 0,
            MemoryPool::Managed => 1,
            MemoryPool::SystemMem => 2,
            MemoryPool::Scratch => 3,
        }
    }

    /// The pool that a number of the legacy interface stands for.
    pub fn from_code(code: u32) -> (res: Option<MemoryPool>)
        ensures
            match res {
                Some(pool) => pool.spec_code() == code,
                None => code > 3,
            },
    {
        if code == 0 {
            Some(MemoryPool::Default)
        } else if code == 1 {
            Some(MemoryPool::Managed)
        } else if code == 2 {
            Some(MemoryPool::SystemMem)
        } else if code == 3 {
            Some(MemoryPool::Scratch)
        } else {
            None
        }
    }
}

/// The kind of resource an interface represents.
#[derive(Debug, Copy, Clone, PartialEq, Eq, Structural)]
pub enum ResourceType {
    Surface,
    Volume,
    Texture,
    VolumeTexture,
    CubeTexture,
    VertexBuffer,
    IndexBuffer,
}

impl ResourceType {
    /// The number that stands for the kind in the legacy interface.
    pub open spec fn spec_code(self) -> u32 {
        match self {
            ResourceType::Surface => 1,
            ResourceType::Volume => 2,
            ResourceType::Texture => 3,
            ResourceType::VolumeTexture => 4,
            ResourceType::CubeTexture => 5,
            ResourceType::VertexBuffer => 6,
            ResourceType::IndexBuffer => 7,
        }
    }

    /// The number that stands for the kind in the legacy interface.
    #[verifier::when_used_as_spec(spec_code)]
    pub fn code(self) -> (res: u32)
        ensures
            res == self.spec_code(),
    {
        match self {
            ResourceType::Surface => 1,
            ResourceType::Volume => 2,
            ResourceType::Texture => 3,
            ResourceType::VolumeTexture => 4,
            ResourceType::CubeTexture => 5,
            ResourceType::VertexBuffer => 6,
            ResourceType::IndexBuffer => 7,
        }
    }
}

/// The flags have the values that the legacy interface gives them, and the
/// flags with a name are all of them together.
pub proof fn flags_are_those_of_the_interface()
    by (bit_vector)
    ensures
        UsageFlags::DYNAMIC == d3d9::D3DUSAGE_DYNAMIC,
        UsageFlags::WRITE_ONLY == d3d9::D3DUSAGE_WRITEONLY,
        UsageFlags::POINTS == d3d9::D3DUSAGE_POINTS,
        UsageFlags::RT_PATCHES == d3d9::D3DUSAGE_RTPATCHES,
        UsageFlags::N_PATCHES == d3d9::D3DUSAGE_NPATCHES,
        UsageFlags::AUTO_GEN_MIP_MAP == d3d9::D3DUSAGE_AUTOGENMIPMAP,
        UsageFlags::RENDER_TARGET == d3d9::D3DUSAGE_RENDERTARGET,
        UsageFlags::DEPTH_STENCIL == d3d9::D3DUSAGE_DEPTHSTENCIL,
        UsageFlags::DISPLACEMENT_MAP == d3d9::D3DUSAGE_DMAP,
        UsageFlags::ALL == UsageFlags::DYNAMIC | UsageFlags::WRITE_ONLY | UsageFlags::POINTS
            | UsageFlags::RT_PATCHES | UsageFlags::N_PATCHES | UsageFlags::AUTO_GEN_MIP_MAP
            | UsageFlags::RENDER_TARGET | UsageFlags::DEPTH_STENCIL
            | UsageFlags::DISPLACEMENT_MAP,
        LockFlags::READ_ONLY == d3d9::D3DLOCK_READONLY,
        LockFlags::NO_OVERWRITE == d3d9::D3DLOCK_NOOVERWRITE,
        LockFlags::DISCARD == d3d9::D3DLOCK_DISCARD,
        LockFlags::DO_NOT_WAIT == d3d9::D3DLOCK_DONOTWAIT,
        LockFlags::NO_DIRTY_UPDATE == d3d9::D3DLOCK_NO_DIRTY_UPDATE,
        LockFlags::ALL == LockFlags::READ_ONLY | LockFlags::NO_OVERWRITE | LockFlags::DISCARD
            | LockFlags::DO_NOT_WAIT | LockFlags::NO_DIRTY_UPDATE,
{
}

} // verus!
