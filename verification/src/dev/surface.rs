//! Surfaces: two-dimensional arrays of pixels.

use vstd::prelude::*;
use crate::abi::d3d11::D3D11_MAP_READ_WRITE;
use crate::abi::d3d9;
use crate::abi::d3d9::SurfaceDesc;
use crate::base::enums::{LockFlags, MemoryPool, ResourceType, UsageFlags};
use crate::base::fmt::{checked_dxgi_format_to_d3d, d3d_format_of};
use crate::base::msample::dxgi_samples_to_d3d9;
use crate::d3d11::devctx::{map_flags_of, map_request, map_type_of};
use crate::d3d11::{MapRequest, Texture2D, UnmapRequest};
use crate::dev::resource::Resource;
use crate::error::{Error, Result};

verus! {

/// Extra information required to fully describe a surface.
///
/// A surface can represent quite a lot of things,
/// so this enum is used to store the data required for each kind.
#[derive(Debug, Copy, Clone, PartialEq, Eq, Structural)]
pub enum SurfaceData {
    /// This is an ordinary surface.
    Plain,
    /// This surface is owning a render target; holds the view.
    RenderTarget(usize),
    /// This surface is owning a depth / stencil buffer; holds the view.
    DepthStencil(usize),
    /// This surface is a level of a bigger texture; holds the name of that
    /// texture.
    SubTexture(usize),
}

/// Represents a 2D contiguous array of pixels.
#[derive(Debug, Copy, Clone, PartialEq, Eq, Structural)]
pub struct Surface {
    pub resource: Resource,
    /// The texture we own, or our parent texture.
    pub texture: Texture2D,
    /// An index representing the sub-resource we are owning.
    /// Can be 0 to indicate a top-level resource.
    pub subresource: u32,
    /// Extra data required for this surface type.
    pub data: SurfaceData,
}

impl Surface {
    /// The usage that the description of the surface reports: what the
    /// surface is for, and for a level of a texture the usage of that
    /// texture.
    pub open spec fn described_usage(&self) -> u32 {
        match self.data {
            SurfaceData::RenderTarget(_) => d3d9::D3DUSAGE_RENDERTARGET,
            SurfaceData::DepthStencil(_) => d3d9::D3DUSAGE_DEPTHSTENCIL,
            SurfaceData::SubTexture(_) => self.resource.usage.bits,
            SurfaceData::Plain => 0,
        }
    }

    /// The description of the surface, where the format of its image has a
    /// legacy counterpart.
    pub open spec fn description(&self) -> Result<SurfaceDesc> {
        match d3d_format_of(self.texture.desc.format) {
            Some(format) => Ok(
                SurfaceDesc {
                    format,
                    ty: d3d9::D3DRTYPE_SURFACE,
                    usage: self.described_usage(),
                    pool: self.resource.pool.spec_code(),
                    multi_sample_type: self.texture.desc.sample_desc.count,
                    multi_sample_quality: self.texture.desc.sample_desc.quality,
                    width: self.texture.desc.width,
                    height: self.texture.desc.height,
                },
            ),
            None => Err(Error::NotAvailable),
        }
    }

    /// Whether the surface can be locked: it is a plain surface or a level
    /// of a texture.
    pub open spec fn is_lockable(&self) -> bool {
        self.data is Plain || self.data is SubTexture
    }

    /// How the surface is mapped for a lock with the given flags, or the
    /// error for a surface that cannot be locked.
    pub open spec fn lock_request(&self, flags: LockFlags) -> Result<MapRequest> {
        if self.is_lockable() {
            Ok(
                MapRequest {
                    resource: self.texture.texture,
                    subresource: self.subresource,
                    map_type: map_type_of(flags, self.resource.usage),
                    map_flags: map_flags_of(flags),
                },
            )
        } else {
            Err(Error::NotAvailable)
        }
    }

    /// Creates a new surface from a modern 2D texture, and possibly some extra data.
    pub fn new(
        device: usize,
        texture: Texture2D,
        subresource: u32,
        usage: UsageFlags,
        pool: MemoryPool,
        data: SurfaceData,
    ) -> (res: Self)
        ensures
            res == (Surface {
                resource: Resource {
                    device,
                    usage,
                    pool,
                    ty: ResourceType::Surface,
                    priority: 0,
                },
                texture,
                subresource,
                data,
            }),
    {
        Self {
            resource: Resource::new(device, usage, pool, ResourceType::Surface),
            texture,
            subresource,
            data,
        }
    }

    /// Retrieves the subresource this surface represents: the resource and
    /// the index in it.
    pub fn subresource(&self) -> (res: (usize, u32))
        ensures
            res == (self.texture.texture, self.subresource),
    {
        let resource = self.texture.as_resource();
        (resource, self.subresource)
    }

    /// If this surface is a render target, retrieves the associated view.
    pub fn render_target_view(&self) -> (res: Option<usize>)
        ensures
            res == (match self.data {
                SurfaceData::RenderTarget(view) => Some(view),
                _ => None,
            }),
    {
        if let SurfaceData::RenderTarget(view) = self.data {
            Some(view)
        } else {
            None
        }
    }

    /// If this surface is a depth / stencil buffer, retrieves the associated view.
    pub fn depth_stencil_view(&self) -> (res: Option<usize>)
        ensures
            res == (match self.data {
                SurfaceData::DepthStencil(view) => Some(view),
                _ => None,
            }),
    {
        if let SurfaceData::DepthStencil(view) = self.data {
            Some(view)
        } else {
            None
        }
    }

    /// If this surface is a level of a texture, retrieves the name of the texture.
    pub fn subtexture(&self) -> (res: Option<usize>)
        ensures
            res == (match self.data {
                SurfaceData::SubTexture(texture) => Some(texture),
                _ => None,
            }),
    {
        if let SurfaceData::SubTexture(texture) = self.data {
            Some(texture)
        } else {
            None
        }
    }

    /// Gets the container of this resource: the texture it is a level of,
    /// or else the device.
    pub fn get_container(&self) -> (res: usize)
        ensures
            res == (match self.data {
                SurfaceData::SubTexture(texture) => texture,
                _ => self.resource.device,
            }),
    {
        if let SurfaceData::SubTexture(texture) = self.data {
            texture
        } else {
            self.resource.device()
        }
    }

    /// Retrieves a description of this surface.
    pub fn get_desc(&self) -> (res: Result<SurfaceDesc>)
        ensures
            res == self.description(),
    {
        let desc = self.texture.desc();

        let format = match checked_dxgi_format_to_d3d(desc.format) {
            Some(format) => format,
            None => {
                return Err(Error::NotAvailable);
            },
        };

        let usage = match self.data {
            SurfaceData::RenderTarget(_) => d3d9::D3DUSAGE_RENDERTARGET,
            SurfaceData::DepthStencil(_) => d3d9::D3DUSAGE_DEPTHSTENCIL,
            SurfaceData::SubTexture(_) => self.resource.usage().bits(),
            SurfaceData::Plain => 0,
        };

        let (ms_ty, ms_qlt) = dxgi_samples_to_d3d9(desc.sample_desc);

        Ok(
            SurfaceDesc {
                format,
                ty: d3d9::D3DRTYPE_SURFACE,
                usage,
                pool: self.resource.pool().code(),
                multi_sample_type: ms_ty,
                multi_sample_quality: ms_qlt,
                width: desc.width,
                height: desc.height,
            },
        )
    }

    // -- Memory mapping functions --

    /// Says how the surface is to be mapped to lock it. Plain surfaces and
    /// levels of textures can be locked; render targets and depth / stencil
    /// buffers belong to the device alone, and locking them is not
    /// supported. No flag makes a lock fail.
    pub fn lock_rect(&self, flags: LockFlags) -> (res: Result<MapRequest>)
        ensures
            res == self.lock_request(flags),
    {
        match self.data {
            SurfaceData::RenderTarget(_) | SurfaceData::DepthStencil(_) => Err(
                Error::NotAvailable,
            ),
            SurfaceData::Plain | SurfaceData::SubTexture(_) => Ok(
                map_request(
                    self.texture.as_resource(),
                    self.subresource,
                    flags,
                    self.resource.usage(),
                ),
            ),
        }
    }

    /// Says what is to be unmapped to unlock the surface. Unlocking always
    /// succeeds; that a lock went before is up to the caller.
    pub fn unlock_rect(&self) -> (res: UnmapRequest)
        ensures
            res == (UnmapRequest { resource: self.texture.texture, subresource: self.subresource }),
    {
        UnmapRequest { resource: self.texture.as_resource(), subresource: self.subresource }
    }
}

/// A lock is refused for what the surface is, never for the flags: a
/// surface that can be locked is locked whatever is asked for.
pub proof fn no_flag_refuses_a_lock(surface: Surface, flags: LockFlags)
    ensures
        surface.is_lockable() <==> surface.lock_request(flags) is Ok,
        !surface.is_lockable() ==> surface.lock_request(flags) == Err::<MapRequest, Error>(
            Error::NotAvailable,
        ),
{
}

/// A surface that is not write-only, locked without the read-only flag, is
/// mapped for reading and writing: discard and no-overwrite are ignored, not
/// rejected.
pub proof fn discard_is_ignored_on_readable_surfaces(surface: Surface, flags: LockFlags)
    requires
        surface.is_lockable(),
        surface.resource.usage.bits & UsageFlags::WRITE_ONLY == 0,
        flags.bits & LockFlags::READ_ONLY == 0,
    ensures
        surface.lock_request(flags) is Ok,
        surface.lock_request(flags)->Ok_0.map_type == D3D11_MAP_READ_WRITE,
        surface.lock_request(flags)->Ok_0.resource == surface.texture.texture,
        surface.lock_request(flags)->Ok_0.subresource == surface.subresource,
{
}

} // verus!
