//! Two-dimensional images of the modern interface.

use vstd::prelude::*;
use crate::abi::d3d11::{
    Texture2dDesc, D3D11_BIND_DEPTH_STENCIL, D3D11_BIND_RENDER_TARGET, D3D11_USAGE_DEFAULT,
};
use crate::abi::dxgi::SampleDesc;
use crate::base::check_hresult;
use crate::base::enums::{MemoryPool, UsageFlags};
use crate::base::fmt::{checked_d3d_format_to_dxgi, dxgi_format_of};
use crate::base::msample::{d3d9_to_dxgi_samples, sample_count_of};
use crate::d3d11::util::{d3d_usage_to_d3d11, usage_translation};
use crate::error::{Error, Result};

verus! {

/// Wrapper for a two-dimensional image of the modern interface.
#[derive(Debug, Copy, Clone, PartialEq, Eq, Structural)]
pub struct Texture2D {
    pub texture: usize,
    pub desc: Texture2dDesc,
}

/// The description of an image with a chain of mip levels and `array_size`
/// slices, for the given legacy usage, format and pool. It is not
/// multisampled. A usage that cannot be translated and a format that the
/// table does not have are invalid.
pub open spec fn texture_desc_of(
    size: (u32, u32),
    levels: u32,
    array_size: u32,
    uflags: UsageFlags,
    fmt: u32,
    pool: MemoryPool,
) -> Result<Texture2dDesc> {
    match (usage_translation(uflags, pool), dxgi_format_of(fmt)) {
        (Ok((usage, bind_flags, cpu_flags)), Some(format)) => Ok(
            Texture2dDesc {
                width: size.0,
                height: size.1,
                mip_levels: levels,
                array_size,
                format,
                sample_desc: SampleDesc { count: 1, quality: 0 },
                usage,
                bind_flags,
                cpu_access_flags: cpu_flags,
                misc_flags: 0,
            },
        ),
        _ => Err(Error::InvalidCall),
    }
}

/// The description of an image that only the device touches: one level, one
/// slice, bound to one stage of the output merger.
pub open spec fn output_desc_of(size: (u32, u32), fmt: u32, samples: SampleDesc, bind_flags: u32)
    -> Result<Texture2dDesc> {
    match dxgi_format_of(fmt) {
        Some(format) => Ok(
            Texture2dDesc {
                width: size.0,
                height: size.1,
                mip_levels: 1,
                array_size: 1,
                format,
                sample_desc: samples,
                usage: D3D11_USAGE_DEFAULT,
                bind_flags,
                cpu_access_flags: 0,
                misc_flags: 0,
            },
        ),
        None => Err(Error::InvalidCall),
    }
}

/// The index of a level of a slice among the subresources of an image, as
/// the modern interface counts them: level by level, slice after slice, in
/// 32 bits.
pub open spec fn subresource_index(level: u32, slice: u32, levels: u32) -> u32 {
    ((level + slice * levels) % 0x1_0000_0000) as u32
}

impl Texture2D {
    fn describe(
        size: (u32, u32),
        levels: u32,
        array_size: u32,
        uflags: UsageFlags,
        fmt: u32,
        pool: MemoryPool,
    ) -> (res: Result<Texture2dDesc>)
        ensures
            res == texture_desc_of(size, levels, array_size, uflags, fmt, pool),
    {
        let (usage, bind_flags, cpu_flags) = match d3d_usage_to_d3d11(uflags, pool) {
            Ok(translated) => translated,
            Err(_) => {
                return Err(Error::InvalidCall);
            },
        };

        let format = match checked_d3d_format_to_dxgi(fmt) {
            Some(format) => format,
            None => {
                return Err(Error::InvalidCall);
            },
        };

        Ok(
            Texture2dDesc {
                width: size.0,
                height: size.1,
                mip_levels: levels,
                array_size,
                format,
                sample_desc: d3d9_to_dxgi_samples(0, 0),
                usage,
                bind_flags,
                cpu_access_flags: cpu_flags,
                misc_flags: 0,
            },
        )
    }

    fn describe_output(size: (u32, u32), fmt: u32, samples: SampleDesc, bind_flags: u32) -> (res:
        Result<Texture2dDesc>)
        ensures
            res == output_desc_of(size, fmt, samples, bind_flags),
    {
        match checked_d3d_format_to_dxgi(fmt) {
            Some(format) => Ok(
                Texture2dDesc {
                    width: size.0,
                    height: size.1,
                    mip_levels: 1,
                    array_size: 1,
                    format,
                    sample_desc: samples,
                    usage: D3D11_USAGE_DEFAULT,
                    bind_flags,
                    cpu_access_flags: 0,
                    misc_flags: 0,
                },
            ),
            None => Err(Error::InvalidCall),
        }
    }

    /// Describes a new texture.
    pub fn new(size: (u32, u32), levels: u32, uflags: UsageFlags, fmt: u32, pool: MemoryPool) -> (res:
        Result<Texture2dDesc>)
        ensures
            res == texture_desc_of(size, levels, 1, uflags, fmt, pool),
    {
        Self::describe(size, levels, 1, uflags, fmt, pool)
    }

    /// Describes a new cube map texture: six square faces.
    pub fn new_cube_texture(
        dimension: u32,
        levels: u32,
        uflags: UsageFlags,
        fmt: u32,
        pool: MemoryPool,
    ) -> (res: Result<Texture2dDesc>)
        ensures
            res == texture_desc_of((dimension, dimension), levels, 6, uflags, fmt, pool),
    {
        Self::describe((dimension, dimension), levels, 6, uflags, fmt, pool)
    }

    /// Describes a new render target.
    pub fn new_rt(size: (u32, u32), fmt: u32, ms_ty: u32, ms_qlt: u32) -> (res: Result<
        Texture2dDesc,
    >)
        ensures
            res == output_desc_of(
                size,
                fmt,
                SampleDesc { count: sample_count_of(ms_ty), quality: ms_qlt },
                D3D11_BIND_RENDER_TARGET,
            ),
    {
        Self::describe_output(
            size,
            fmt,
            d3d9_to_dxgi_samples(ms_ty, ms_qlt),
            D3D11_BIND_RENDER_TARGET,
        )
    }

    /// Describes a new depth/stencil buffer. It is never multisampled.
    pub fn new_ds(size: (u32, u32), fmt: u32) -> (res: Result<Texture2dDesc>)
        ensures
            res == output_desc_of(
                size,
                fmt,
                SampleDesc { count: 1, quality: 0 },
                D3D11_BIND_DEPTH_STENCIL,
            ),
    {
        Self::describe_output(size, fmt, d3d9_to_dxgi_samples(0, 0), D3D11_BIND_DEPTH_STENCIL)
    }

    /// Takes what came of the creation of an image from `desc`.
    pub fn created(desc: Texture2dDesc, result: i32, texture: usize) -> (res: Result<Texture2D>)
        ensures
            res == (if result == 0 {
                Ok::<Texture2D, Error>(Texture2D { texture, desc })
            } else {
                Err::<Texture2D, Error>(Error::DriverInternalError)
            }),
    {
        match check_hresult(result) {
            Error::Success => Ok(Texture2D { texture, desc }),
            e => Err(e),
        }
    }

    /// Wraps an image that exists already, such as a buffer of a swap chain.
    pub fn from(texture: usize, desc: Texture2dDesc) -> (res: Self)
        ensures
            res == (Texture2D { texture, desc }),
    {
        Self { texture, desc }
    }

    /// Takes what came of the creation of a render target view of this
    /// texture.
    pub fn create_rt_view(&self, result: i32, view: usize) -> (res: Result<usize>)
        ensures
            res == (if result == 0 {
                Ok::<usize, Error>(view)
            } else {
                Err::<usize, Error>(Error::DriverInternalError)
            }),
    {
        match check_hresult(result) {
            Error::Success => Ok(view),
            e => Err(e),
        }
    }

    /// Takes what came of the creation of a depth / stencil view of this
    /// texture.
    pub fn create_ds_view(&self, result: i32, view: usize) -> (res: Result<usize>)
        ensures
            res == (if result == 0 {
                Ok::<usize, Error>(view)
            } else {
                Err::<usize, Error>(Error::DriverInternalError)
            }),
    {
        match check_hresult(result) {
            Error::Success => Ok(view),
            e => Err(e),
        }
    }

    /// Retrieves this texture as a resource.
    pub fn as_resource(&self) -> (res: usize)
        ensures
            res == self.texture,
    {
        self.texture
    }

    /// Retrieves the description of this texture.
    pub fn desc(&self) -> (res: Texture2dDesc)
        ensures
            res == self.desc,
    {
        self.desc
    }

    /// The index of a level of a slice among the subresources of an image
    /// that has `levels` levels in each slice.
    pub fn calc_subresource(&self, level: u32, slice: u32, levels: u32) -> (res: u32)
        ensures
            res == subresource_index(level, slice, levels),
    {
        assert(slice * levels <= 0xFFFF_FFFF * 0xFFFF_FFFF) by (nonlinear_arith)
            requires
                0 <= slice <= 0xFFFF_FFFF,
                0 <= levels <= 0xFFFF_FFFF,
        ;
        let index: u64 = (level as u64 + slice as u64 * levels as u64) % 0x1_0000_0000;
        index as u32
    }
}

} // verus!
