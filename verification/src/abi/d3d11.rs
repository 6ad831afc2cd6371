//! The modern interface: enumerants, flags and structures.

use vstd::prelude::*;
use crate::abi::dxgi::SampleDesc;

verus! {

// Resource usages.
pub const D3D11_USAGE_DEFAULT: u32 = 0;
pub const D3D11_USAGE_IMMUTABLE: u32 = 1;
pub const D3D11_USAGE_DYNAMIC: u32 = 2;
pub const D3D11_USAGE_STAGING: u32 = 3;

// Bind flags.
pub const D3D11_BIND_VERTEX_BUFFER: u32 = 1;
pub const D3D11_BIND_INDEX_BUFFER: u32 = 2;
pub const D3D11_BIND_SHADER_RESOURCE: u32 = 8;
pub const D3D11_BIND_RENDER_TARGET: u32 = 32;
pub const D3D11_BIND_DEPTH_STENCIL: u32 = 64;

// Processor access flags.
pub const D3D11_CPU_ACCESS_WRITE: u32 = 0x0001_0000;
pub const D3D11_CPU_ACCESS_READ: u32 = 0x0002_0000;

// Map kinds and flags.
pub const D3D11_MAP_READ: u32 = 1;
pub const D3D11_MAP_WRITE: u32 = 2;
pub const D3D11_MAP_READ_WRITE: u32 = 3;
pub const D3D11_MAP_WRITE_DISCARD: u32 = 4;
pub const D3D11_MAP_WRITE_NO_OVERWRITE: u32 = 5;
pub const D3D11_MAP_FLAG_DO_NOT_WAIT: u32 = 0x0010_0000;

// Format support bits.
pub const D3D11_FORMAT_SUPPORT_IA_VERTEX_BUFFER: u32 = 0x0000_0002;
pub const D3D11_FORMAT_SUPPORT_IA_INDEX_BUFFER: u32 = 0x0000_0004;
pub const D3D11_FORMAT_SUPPORT_TEXTURE2D: u32 = 0x0000_0020;
pub const D3D11_FORMAT_SUPPORT_TEXTURE3D: u32 = 0x0000_0040;
pub const D3D11_FORMAT_SUPPORT_TEXTURECUBE: u32 = 0x0000_0080;
pub const D3D11_FORMAT_SUPPORT_MIP_AUTOGEN: u32 = 0x0000_2000;
pub const D3D11_FORMAT_SUPPORT_RENDER_TARGET: u32 = 0x0000_4000;
pub const D3D11_FORMAT_SUPPORT_DEPTH_STENCIL: u32 = 0x0001_0000;

// Limits and feature levels.
pub const D3D11_SIMULTANEOUS_RENDER_TARGET_COUNT: u32 = 8;
pub const D3D_FEATURE_LEVEL_11_0: u32 = 45056;

/// Description from which a two-dimensional image is created.
#[derive(Debug, Copy, Clone, PartialEq, Eq, Structural)]
pub struct Texture2dDesc {
    pub width: u32,
    pub height: u32,
    pub mip_levels: u32,
    pub array_size: u32,
    pub format: u32,
    pub sample_desc: SampleDesc,
    pub usage: u32,
    pub bind_flags: u32,
    pub cpu_access_flags: u32,
    pub misc_flags: u32,
}

/// Description from which a buffer is created.
#[derive(Debug, Copy, Clone, PartialEq, Eq, Structural)]
pub struct BufferDesc {
    pub byte_width: u32,
    pub usage: u32,
    pub bind_flags: u32,
    pub cpu_access_flags: u32,
    pub misc_flags: u32,
    pub structure_byte_stride: u32,
}

/// What a successful map hands out: the address of the data and the
/// distances between rows and between slices.
#[derive(Debug, Copy, Clone, PartialEq, Eq, Structural)]
pub struct MappedSubresource {
    pub data: usize,
    pub row_pitch: u32,
    pub depth_pitch: u32,
}

/// A box inside a resource, in texels.
#[derive(Debug, Copy, Clone, PartialEq, Eq, Structural)]
pub struct ResourceBox {
    pub left: u32,
    pub top: u32,
    pub front: u32,
    pub right: u32,
    pub bottom: u32,
    pub back: u32,
}

} // verus!
