//! What every resource of a device has in common.

use vstd::prelude::*;
use crate::base::enums::{MemoryPool, ResourceType, UsageFlags};

verus! {

/// Structure used as the base for all the device resources.
#[derive(Debug, Copy, Clone, PartialEq, Eq, Structural)]
pub struct Resource {
    /// Names the parent device. The resource does not keep it alive.
    pub device: usize,
    /// Usage flags of this resource.
    pub usage: UsageFlags,
    /// Memory pool from which this resource was allocated.
    pub pool: MemoryPool,
    /// The type of this resource.
    pub ty: ResourceType,
    /// Priority of this resource.
    /// Higher value indicates this resource should be evicted last from video memory.
    pub priority: u32,
}

impl Resource {
    /// Creates a new base resource structure. Its priority is zero.
    pub fn new(device: usize, usage: UsageFlags, pool: MemoryPool, ty: ResourceType) -> (res: Self)
        ensures
            res == (Resource { device, usage, pool, ty, priority: 0 }),
    {
        Self { device, usage, pool, ty, priority: 0 }
    }

    /// Returns the parent device of this resource.
    pub fn device(&self) -> (res: usize)
        ensures
            res == self.device,
    {
        self.device
    }

    /// Retrieves the usage flags of this resource.
    pub fn usage(&self) -> (res: UsageFlags)
        ensures
            res == self.usage,
    {
        self.usage
    }

    /// Retrieves the memory pool in which this resource belongs.
    pub fn pool(&self) -> (res: MemoryPool)
        ensures
            res == self.pool,
    {
        self.pool
    }

    /// Retrieves the type of this resource.
    pub fn get_type(&self) -> (res: ResourceType)
        ensures
            res == self.ty,
    {
        self.ty
    }

    /// Returns the parent device.
    pub fn get_device(&self) -> (res: usize)
        ensures
            res == self.device,
    {
        self.device
    }

    /// Updates this resource's priority, and returns the one it had.
    pub fn set_priority(&mut self, priority: u32) -> (res: u32)
        ensures
            res == old(self).priority,
            *final(self) == (Resource { priority, ..*old(self) }),
    {
        let old = self.priority;
        self.priority = priority;
        old
    }

    /// Returns the priority of this resource.
    pub fn get_priority(&self) -> (res: u32)
        ensures
            res == self.priority,
    {
        self.priority
    }
}

} // verus!
