//! Two-dimensional textures.

use vstd::prelude::*;
use crate::abi::d3d9::SurfaceDesc;
use crate::base::enums::{LockFlags, MemoryPool, ResourceType, UsageFlags};
use crate::d3d11::devctx::{map_flags_of, map_request, map_type_of};
use crate::d3d11::{MapRequest, Texture2D, UnmapRequest};
use crate::dev::resource::Resource;
use crate::dev::surface::{Surface, SurfaceData};
use crate::dev::texture::base::BaseTexture;
use crate::error::{Error, Result};

verus! {

/// Structure containing an image and its mip sub-levels.
#[derive(Debug, Copy, Clone, PartialEq, Eq, Structural)]
pub struct Texture {
    pub base: BaseTexture,
    pub texture: Texture2D,
}

impl Texture {
    /// The surface that stands for a level of this texture. It has the
    /// usage and pool of the texture, and names the texture by its image.
    pub open spec fn level_surface(&self, level: u32) -> Surface {
        Surface {
            resource: Resource {
                device: self.base.resource.device,
                usage: self.base.resource.usage,
                pool: self.base.resource.pool,
                ty: ResourceType::Surface,
                priority: 0,
            },
            texture: self.texture,
            subresource: level,
            data: SurfaceData::SubTexture(self.texture.texture),
        }
    }

    /// Creates a new texture object.
    pub fn new(device: usize, pool: MemoryPool, texture: Texture2D, levels: u32, usage: UsageFlags) -> (res:
        Self)
        ensures
            res == (Texture {
                base: BaseTexture {
                    resource: Resource {
                        device,
                        usage,
                        pool,
                        ty: ResourceType::Texture,
                        priority: 0,
                    },
                    levels,
                },
                texture,
            }),
    {
        Self { base: BaseTexture::new(device, usage, pool, ResourceType::Texture, levels), texture }
    }

    /// Retrieves the pool in which this texture was allocated.
    pub fn pool(&self) -> (res: MemoryPool)
        ensures
            res == self.base.resource.pool,
    {
        self.base.resource.pool()
    }

    /// Retrieves the usage of this texture.
    pub fn usage(&self) -> (res: UsageFlags)
        ensures
            res == self.base.resource.usage,
    {
        self.base.resource.usage()
    }

    /// Retrieves the description of a certain mip level.
    pub fn get_level_desc(&self, level: u32) -> (res: Result<SurfaceDesc>)
        ensures
            res == (if level >= self.base.levels {
                Err::<SurfaceDesc, Error>(Error::InvalidCall)
            } else {
                self.level_surface(level).description()
            }),
    {
        match self.get_surface_level(level) {
            Ok(surface) => surface.get_desc(),
            Err(e) => Err(e),
        }
    }

    /// Retrieves a surface representing a mip level of this texture.
    pub fn get_surface_level(&self, level: u32) -> (res: Result<Surface>)
        ensures
            res == (if level >= self.base.levels {
                Err::<Surface, Error>(Error::InvalidCall)
            } else {
                Ok::<Surface, Error>(self.level_surface(level))
            }),
    {
        if level >= self.base.level_count() {
            return Err(Error::InvalidCall);
        }

        let device = self.base.resource.device();
        let usage = self.usage();
        let pool = self.pool();
        let data = SurfaceData::SubTexture(self.texture.as_resource());

        Ok(Surface::new(device, self.texture, level, usage, pool, data))
    }

    /// Says how a level of the texture is to be mapped to lock it.
    pub fn lock_rect(&self, level: u32, flags: LockFlags) -> (req: MapRequest)
        ensures
            req == (MapRequest {
                resource: self.texture.texture,
                subresource: level,
                map_type: map_type_of(flags, self.base.resource.usage),
                map_flags: map_flags_of(flags),
            }),
    {
        map_request(self.texture.as_resource(), level, flags, self.usage())
    }

    /// Says what is to be unmapped to unlock a level of the texture.
    pub fn unlock_rect(&self, level: u32) -> (req: UnmapRequest)
        ensures
            req == (UnmapRequest { resource: self.texture.texture, subresource: level }),
    {
        UnmapRequest { resource: self.texture.as_resource(), subresource: level }
    }

    /// Accepts a dirty rectangle. Dirty regions are not tracked.
    pub fn add_dirty_rect(&mut self) -> (res: Error)
        ensures
            res == Error::Success,
            *final(self) == *old(self),
    {
        Error::Success
    }
}

} // verus!
