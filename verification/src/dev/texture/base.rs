//! What every texture has in common.

use vstd::prelude::*;
use crate::base::enums::{MemoryPool, ResourceType, UsageFlags};
use crate::dev::resource::Resource;

verus! {

/// The common interface for all texture interfaces.
#[derive(Debug, Copy, Clone, PartialEq, Eq, Structural)]
pub struct BaseTexture {
    pub resource: Resource,
    /// Number of subresource levels in this texture.
    pub levels: u32,
}

impl BaseTexture {
    /// Initializes a new base texture.
    pub fn new(
        device: usize,
        usage: UsageFlags,
        pool: MemoryPool,
        rtype: ResourceType,
        levels: u32,
    ) -> (res: Self)
        ensures
            res == (BaseTexture {
                resource: Resource { device, usage, pool, ty: rtype, priority: 0 },
                levels,
            }),
    {
        Self { resource: Resource::new(device, usage, pool, rtype), levels }
    }

    /// Retrieves the number of mip map levels in this texture.
    pub fn level_count(&self) -> (res: u32)
        ensures
            res == self.levels,
    {
        self.levels
    }

    /// Retrieves the number of mip map levels in this texture.
    pub fn get_level_count(&self) -> (res: u32)
        ensures
            res == self.levels,
    {
        self.level_count()
    }
}

} // verus!
