//! The presentation layer of the modern interface: enumerants and structures.

use vstd::prelude::*;

verus! {

// Image formats.
pub const DXGI_FORMAT_UNKNOWN: u32 = 0;
pub const DXGI_FORMAT_R32G32B32A32_FLOAT: u32 = 2;
pub const DXGI_FORMAT_R16G16B16A16_FLOAT: u32 = 10;
pub const DXGI_FORMAT_R16G16B16A16_UNORM: u32 = 11;
pub const DXGI_FORMAT_R16G16B16A16_UINT: u32 = 12;
pub const DXGI_FORMAT_R32G32_FLOAT: u32 = 16;
pub const DXGI_FORMAT_R10G10B10A2_UNORM: u32 = 24;
pub const DXGI_FORMAT_R8G8B8A8_UNORM: u32 = 28;
pub const DXGI_FORMAT_R8G8B8A8_SNORM: u32 = 31;
pub const DXGI_FORMAT_R16G16_FLOAT: u32 = 34;
pub const DXGI_FORMAT_R16G16_UNORM: u32 = 35;
pub const DXGI_FORMAT_R16G16_SNORM: u32 = 37;
pub const DXGI_FORMAT_D32_FLOAT: u32 = 40;
pub const DXGI_FORMAT_R32_FLOAT: u32 = 41;
pub const DXGI_FORMAT_D24_UNORM_S8_UINT: u32 = 45;
pub const DXGI_FORMAT_R8G8_UNORM: u32 = 49;
pub const DXGI_FORMAT_R8G8_SNORM: u32 = 51;
pub const DXGI_FORMAT_R16_FLOAT: u32 = 54;
pub const DXGI_FORMAT_D16_UNORM: u32 = 55;
pub const DXGI_FORMAT_R16_UNORM: u32 = 56;
pub const DXGI_FORMAT_R8_UNORM: u32 = 61;
pub const DXGI_FORMAT_A8_UNORM: u32 = 65;
pub const DXGI_FORMAT_R8G8_B8G8_UNORM: u32 = 68;
pub const DXGI_FORMAT_G8R8_G8B8_UNORM: u32 = 69;
pub const DXGI_FORMAT_BC1_UNORM: u32 = 71;
pub const DXGI_FORMAT_BC2_UNORM: u32 = 74;
pub const DXGI_FORMAT_BC3_UNORM: u32 = 77;
pub const DXGI_FORMAT_BC4_UNORM: u32 = 80;
pub const DXGI_FORMAT_BC5_UNORM: u32 = 83;
pub const DXGI_FORMAT_B5G6R5_UNORM: u32 = 85;
pub const DXGI_FORMAT_B5G5R5A1_UNORM: u32 = 86;
pub const DXGI_FORMAT_B8G8R8A8_UNORM: u32 = 87;
pub const DXGI_FORMAT_B8G8R8X8_UNORM: u32 = 88;
pub const DXGI_FORMAT_B4G4R4A4_UNORM: u32 = 115;

// Display mode attributes, buffer usage, swap effects and presentation flags.
pub const DXGI_MODE_SCANLINE_ORDER_UNSPECIFIED: u32 = 0;
pub const DXGI_MODE_SCALING_UNSPECIFIED: u32 = 0;
pub const DXGI_USAGE_RENDER_TARGET_OUTPUT: u32 = 32;
pub const DXGI_USAGE_BACK_BUFFER: u32 = 64;
pub const DXGI_SWAP_EFFECT_DISCARD: u32 = 0;
pub const DXGI_PRESENT_DO_NOT_WAIT: u32 = 8;

// Status of a call that was refused because the device is still drawing.
pub const DXGI_ERROR_WAS_STILL_DRAWING: i32 = -2005270518;

/// A refresh rate as a fraction.
#[derive(Debug, Copy, Clone, PartialEq, Eq, Structural)]
pub struct Rational {
    pub numerator: u32,
    pub denominator: u32,
}

/// A display mode of an output.
#[derive(Debug, Copy, Clone, PartialEq, Eq, Structural)]
pub struct ModeDesc {
    pub width: u32,
    pub height: u32,
    pub refresh_rate: Rational,
    pub format: u32,
    pub scanline_ordering: u32,
    pub scaling: u32,
}

/// Multisampling of an image: samples per pixel and quality level.
#[derive(Debug, Copy, Clone, PartialEq, Eq, Structural)]
pub struct SampleDesc {
    pub count: u32,
    pub quality: u32,
}

/// Description from which a swap chain is created.
#[derive(Debug, Copy, Clone, PartialEq, Eq, Structural)]
pub struct SwapChainDesc {
    pub buffer_desc: ModeDesc,
    pub sample_desc: SampleDesc,
    pub buffer_usage: u32,
    pub buffer_count: u32,
    pub output_window: usize,
    pub windowed: u32,
    pub swap_effect: u32,
    pub flags: u32,
}

/// What the platform tells of an output, as far as the library reads it:
/// the monitor that the output drives.
#[derive(Debug, Copy, Clone, PartialEq, Eq, Structural)]
pub struct OutputDesc {
    pub monitor: usize,
}

/// What the platform tells of an adapter. The description is a wide string
/// that may end in zero words.
#[derive(Debug, PartialEq, Eq)]
pub struct AdapterDesc {
    pub description: Vec<u16>,
    pub vendor_id: u32,
    pub device_id: u32,
    pub sub_sys_id: u32,
    pub revision: u32,
}

} // verus!
