//! Cube map textures.

use vstd::prelude::*;
use crate::abi::d3d9::SurfaceDesc;
use crate::base::enums::{LockFlags, MemoryPool, ResourceType, UsageFlags};
use crate::d3d11::devctx::{map_flags_of, map_request, map_type_of};
use crate::d3d11::texture::subresource_index;
use crate::d3d11::{MapRequest, Texture2D, UnmapRequest};
use crate::dev::resource::Resource;
use crate::dev::surface::{Surface, SurfaceData};
use crate::dev::texture::base::BaseTexture;
use crate::error::{Error, Result};

verus! {

/// Number of faces of a cube map.
pub const CUBE_FACES: u32 = 6;

/// Cube map texture.
///
/// In other words, a texture array with 6 sub-textures.
#[derive(Debug, Copy, Clone, PartialEq, Eq, Structural)]
pub struct CubeTexture {
    pub base: BaseTexture,
    pub texture: Texture2D,
}

impl CubeTexture {
    /// The surface that stands for a level of a face of this cube map.
    pub open spec fn face_surface(&self, face: u32, level: u32) -> Surface {
        Surface {
            resource: Resource {
                device: self.base.resource.device,
                usage: self.base.resource.usage,
                pool: self.base.resource.pool,
                ty: ResourceType::Surface,
                priority: 0,
            },
            texture: self.texture,
            subresource: subresource_index(level, face, self.base.levels),
            data: SurfaceData::SubTexture(self.texture.texture),
        }
    }

    /// Creates a new cube texture.
    pub fn new(device: usize, texture: Texture2D, levels: u32, usage: UsageFlags, pool: MemoryPool) -> (res:
        Self)
        ensures
            res == (CubeTexture {
                base: BaseTexture {
                    resource: Resource {
                        device,
                        usage,
                        pool,
                        ty: ResourceType::CubeTexture,
                        priority: 0,
                    },
                    levels,
                },
                texture,
            }),
    {
        Self {
            base: BaseTexture::new(device, usage, pool, ResourceType::CubeTexture, levels),
            texture,
        }
    }

    /// Returns the description of a mip map level of a face.
    pub fn get_level_desc(&self, level: u32) -> (res: Result<SurfaceDesc>)
        ensures
            res == (if level >= self.base.levels {
                Err::<SurfaceDesc, Error>(Error::InvalidCall)
            } else {
                self.face_surface(0, level).description()
            }),
    {
        // We can use any face, since they are all equal.
        match self.get_cube_map_surface(0, level) {
            Ok(surface) => surface.get_desc(),
            Err(e) => Err(e),
        }
    }

    /// Retrieves a face of this cube map.
    pub fn get_cube_map_surface(&self, face: u32, level: u32) -> (res: Result<Surface>)
        ensures
            res == (if face >= CUBE_FACES || level >= self.base.levels {
                Err::<Surface, Error>(Error::InvalidCall)
            } else {
                Ok::<Surface, Error>(self.face_surface(face, level))
            }),
    {
        let levels = self.base.level_count();

        if face >= 6 {
            return Err(Error::InvalidCall);
        }

        if level >= levels {
            return Err(Error::InvalidCall);
        }

        let device = self.base.resource.device();
        let usage = self.base.resource.usage();
        let pool = self.base.resource.pool();
        let subres = self.texture.calc_subresource(level, face, levels);
        let data = SurfaceData::SubTexture(self.texture.as_resource());

        Ok(Surface::new(device, self.texture, subres, usage, pool, data))
    }

    /// Says how a level of a face of this cube map is to be mapped to lock
    /// it.
    pub fn lock_rect(&self, face: u32, level: u32, flags: LockFlags) -> (req: MapRequest)
        ensures
            req == (MapRequest {
                resource: self.texture.texture,
                subresource: subresource_index(level, face, self.base.levels),
                map_type: map_type_of(flags, self.base.resource.usage),
                map_flags: map_flags_of(flags),
            }),
    {
        let levels = self.base.level_count();
        let subres = self.texture.calc_subresource(level, face, levels);
        map_request(self.texture.as_resource(), subres, flags, self.base.resource.usage())
    }

    /// Says what is to be unmapped to unlock a level of a face of this cube
    /// map.
    pub fn unlock_rect(&self, face: u32, level: u32) -> (req: UnmapRequest)
        ensures
            req == (UnmapRequest {
                resource: self.texture.texture,
                subresource: subresource_index(level, face, self.base.levels),
            }),
    {
        let levels = self.base.level_count();
        let subres = self.texture.calc_subresource(level, face, levels);
        UnmapRequest { resource: self.texture.as_resource(), subresource: subres }
    }

    /// Accepts a dirty rectangle. Dirty regions are not tracked.
    pub fn add_dirty_rect(&mut self, _face: u32) -> (res: Error)
        ensures
            res == Error::Success,
            *final(self) == *old(self),
    {
        Error::Success
    }
}

} // verus!
