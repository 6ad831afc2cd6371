//! Utility functions for validating and converting between the surface
//! formats of the legacy interface and the image formats of the modern one.
//!
//! Several legacy byte orders collapse onto one modern layout, so the way
//! forth loses information. The way back picks the closest legacy format; it
//! is no inverse.

use vstd::prelude::*;
use crate::abi::d3d9;
use crate::abi::dxgi;

verus! {

/// The modern format of a display mode format. Only the formats from
/// `D3DFMT_R8G8B8` to `D3DFMT_A1R5G5B5`, the unknown format and the ten-bit
/// format have one; all but the last collapse onto one layout of 32 bits.
pub open spec fn display_format_of(fmt: u32) -> Option<u32> {
    if d3d9::D3DFMT_R8G8B8 <= fmt <= d3d9::D3DFMT_A1R5G5B5 || fmt == d3d9::D3DFMT_UNKNOWN {
        Some(dxgi::DXGI_FORMAT_B8G8R8A8_UNORM)
    } else if fmt == d3d9::D3DFMT_A2R10G10B10 {
        Some(dxgi::DXGI_FORMAT_R10G10B10A2_UNORM)
    } else {
        None
    }
}

/// Whether a format can be asked for when the mode of the display is set.
pub open spec fn display_mode_format(fmt: u32) -> bool {
    d3d9::D3DFMT_A8R8G8B8 <= fmt <= d3d9::D3DFMT_A1R5G5B5 || fmt == d3d9::D3DFMT_A2R10G10B10
}

/// Whether a format lies in the range of the depth / stencil formats.
pub open spec fn depth_stencil_format(fmt: u32) -> bool {
    d3d9::D3DFMT_D16_LOCKABLE <= fmt <= d3d9::D3DFMT_S8_LOCKABLE
}

/// The modern format of a display mode format, if it has one.
pub fn checked_d3d_display_format_to_dxgi(fmt: u32) -> (res: Option<u32>)
    ensures
        res == display_format_of(fmt),
{
    // We have to map all these formats to a format the display supports.
    if (d3d9::D3DFMT_R8G8B8 <= fmt && fmt <= d3d9::D3DFMT_A1R5G5B5) || fmt == d3d9::D3DFMT_UNKNOWN {
        Some(dxgi::DXGI_FORMAT_B8G8R8A8_UNORM)
    } else if fmt == d3d9::D3DFMT_A2R10G10B10 {
        Some(dxgi::DXGI_FORMAT_R10G10B10A2_UNORM)
    } else {
        None
    }
}

/// Converts a display mode format to its corresponding modern format.
pub fn d3d_display_format_to_dxgi(fmt: u32) -> (res: u32)
    requires
        display_format_of(fmt).is_some(),
    ensures
        display_format_of(fmt) == Some(res),
{
    checked_d3d_display_format_to_dxgi(fmt).unwrap()
}

/// Checks if a given format is valid to be used when setting the mode of the display.
///
/// Note that on modern computers we cannot change the display's format,
/// this is just for sanity checking.
pub fn is_display_mode_format(fmt: u32) -> (res: bool)
    ensures
        res == display_mode_format(fmt),
{
    // Thankfully, these formats form a contiguous range; the ten-bit format
    // is meant for displays of high dynamic range.
    (d3d9::D3DFMT_A8R8G8B8 <= fmt && fmt <= d3d9::D3DFMT_A1R5G5B5) || fmt == d3d9::D3DFMT_A2R10G10B10
}

/// Checks if a given format is a valid depth / stencil buffer format.
pub fn is_depth_stencil_format(fmt: u32) -> (res: bool)
    ensures
        res == depth_stencil_format(fmt),
{
    d3d9::D3DFMT_D16_LOCKABLE <= fmt && fmt <= d3d9::D3DFMT_S8_LOCKABLE
}

/// The modern format of a general resource format, where the table has one.
/// Formats without a modern counterpart are in the table too: they give the
/// unknown format.
pub open spec fn dxgi_format_of(fmt: u32) -> Option<u32> {
    // 8 bit formats
    if fmt == d3d9::D3DFMT_A8 {
        Some(dxgi::DXGI_FORMAT_A8_UNORM)
    } else if fmt == d3d9::D3DFMT_L8 {
        Some(dxgi::DXGI_FORMAT_R8_UNORM)
    // 16 bit formats
    } else if fmt == d3d9::D3DFMT_R5G6B5 {
        Some(dxgi::DXGI_FORMAT_B5G6R5_UNORM)
    } else if fmt == d3d9::D3DFMT_X4R4G4B4 {
        Some(dxgi::DXGI_FORMAT_B4G4R4A4_UNORM)
    } else if fmt == d3d9::D3DFMT_A4R4G4B4 {
        Some(dxgi::DXGI_FORMAT_B4G4R4A4_UNORM)
    } else if fmt == d3d9::D3DFMT_X1R5G5B5 {
        Some(dxgi::DXGI_FORMAT_B5G5R5A1_UNORM)
    } else if fmt == d3d9::D3DFMT_A1R5G5B5 {
        Some(dxgi::DXGI_FORMAT_B5G5R5A1_UNORM)
    } else if fmt == d3d9::D3DFMT_A8L8 {
        Some(dxgi::DXGI_FORMAT_R8G8_UNORM)
    } else if fmt == d3d9::D3DFMT_L16 {
        Some(dxgi::DXGI_FORMAT_R16_UNORM)
    // 32 bit formats
    } else if fmt == d3d9::D3DFMT_X8B8G8R8 {
        Some(dxgi::DXGI_FORMAT_R8G8B8A8_UNORM)
    } else if fmt == d3d9::D3DFMT_X8R8G8B8 {
        Some(dxgi::DXGI_FORMAT_B8G8R8X8_UNORM)
    } else if fmt == d3d9::D3DFMT_A8R8G8B8 {
        Some(dxgi::DXGI_FORMAT_B8G8R8A8_UNORM)
    } else if fmt == d3d9::D3DFMT_A8B8G8R8 {
        Some(dxgi::DXGI_FORMAT_R8G8B8A8_UNORM)
    } else if fmt == d3d9::D3DFMT_G16R16 {
        Some(dxgi::DXGI_FORMAT_R16G16_UNORM)
    // HDR formats
    } else if fmt == d3d9::D3DFMT_A2R10G10B10 {
        Some(dxgi::DXGI_FORMAT_R10G10B10A2_UNORM)
    } else if fmt == d3d9::D3DFMT_A2B10G10R10 {
        Some(dxgi::DXGI_FORMAT_R10G10B10A2_UNORM)
    // Depth / stencil formats
    } else if fmt == d3d9::D3DFMT_D16_LOCKABLE {
        Some(dxgi::DXGI_FORMAT_D16_UNORM)
    } else if fmt == d3d9::D3DFMT_D16 {
        Some(dxgi::DXGI_FORMAT_D16_UNORM)
    } else if fmt == d3d9::D3DFMT_D24S8 {
        Some(dxgi::DXGI_FORMAT_D24_UNORM_S8_UINT)
    } else if fmt == d3d9::D3DFMT_D24X8 {
        Some(dxgi::DXGI_FORMAT_D24_UNORM_S8_UINT)
    } else if fmt == d3d9::D3DFMT_D32 {
        Some(dxgi::DXGI_FORMAT_D32_FLOAT)
    } else if fmt == d3d9::D3DFMT_D32F_LOCKABLE {
        Some(dxgi::DXGI_FORMAT_D32_FLOAT)
    // Compressed formats
    } else if fmt == d3d9::D3DFMT_DXT1 {
        Some(dxgi::DXGI_FORMAT_BC1_UNORM)
    } else if fmt == d3d9::D3DFMT_DXT2 {
        Some(dxgi::DXGI_FORMAT_BC2_UNORM)
    } else if fmt == d3d9::D3DFMT_DXT3 {
        Some(dxgi::DXGI_FORMAT_BC3_UNORM)
    } else if fmt == d3d9::D3DFMT_DXT4 {
        Some(dxgi::DXGI_FORMAT_BC4_UNORM)
    } else if fmt == d3d9::D3DFMT_DXT5 {
        Some(dxgi::DXGI_FORMAT_BC5_UNORM)
    // Special formats: mostly used for hardware video.
    } else if fmt == d3d9::D3DFMT_R8G8_B8G8 {
        Some(dxgi::DXGI_FORMAT_G8R8_G8B8_UNORM)
    } else if fmt == d3d9::D3DFMT_G8R8_G8B8 {
        Some(dxgi::DXGI_FORMAT_R8G8_B8G8_UNORM)
    // Signed formats
    } else if fmt == d3d9::D3DFMT_V8U8 {
        Some(dxgi::DXGI_FORMAT_R8G8_SNORM)
    } else if fmt == d3d9::D3DFMT_Q8W8V8U8 {
        Some(dxgi::DXGI_FORMAT_R8G8B8A8_SNORM)
    } else if fmt == d3d9::D3DFMT_V16U16 {
        Some(dxgi::DXGI_FORMAT_R16G16_SNORM)
    // Buffer formats
    } else if fmt == d3d9::D3DFMT_R16F {
        Some(dxgi::DXGI_FORMAT_R16_FLOAT)
    } else if fmt == d3d9::D3DFMT_G16R16F {
        Some(dxgi::DXGI_FORMAT_R16G16_FLOAT)
    } else if fmt == d3d9::D3DFMT_A16B16G16R16 {
        Some(dxgi::DXGI_FORMAT_R16G16B16A16_UNORM)
    } else if fmt == d3d9::D3DFMT_A16B16G16R16F {
        Some(dxgi::DXGI_FORMAT_R16G16B16A16_FLOAT)
    } else if fmt == d3d9::D3DFMT_R32F {
        Some(dxgi::DXGI_FORMAT_R32_FLOAT)
    } else if fmt == d3d9::D3DFMT_G32R32F {
        Some(dxgi::DXGI_FORMAT_R32G32_FLOAT)
    } else if fmt == d3d9::D3DFMT_A32B32G32R32F {
        Some(dxgi::DXGI_FORMAT_R32G32B32A32_FLOAT)
    // Unknown format
    } else if fmt == d3d9::D3DFMT_UNKNOWN {
        Some(dxgi::DXGI_FORMAT_UNKNOWN)
    // Unsupported formats
    } else if fmt == d3d9::D3DFMT_P8 {
        Some(dxgi::DXGI_FORMAT_UNKNOWN)
    } else if fmt == d3d9::D3DFMT_A8P8 {
        Some(dxgi::DXGI_FORMAT_UNKNOWN)
    } else if fmt == d3d9::D3DFMT_A4L4 {
        Some(dxgi::DXGI_FORMAT_UNKNOWN)
    } else if fmt == d3d9::D3DFMT_R3G3B2 {
        Some(dxgi::DXGI_FORMAT_UNKNOWN)
    } else if fmt == d3d9::D3DFMT_A8R3G3B2 {
        Some(dxgi::DXGI_FORMAT_UNKNOWN)
    } else if fmt == d3d9::D3DFMT_R8G8B8 {
        Some(dxgi::DXGI_FORMAT_UNKNOWN)
    } else if fmt == d3d9::D3DFMT_D15S1 {
        Some(dxgi::DXGI_FORMAT_UNKNOWN)
    } else if fmt == d3d9::D3DFMT_D24FS8 {
        Some(dxgi::DXGI_FORMAT_UNKNOWN)
    } else if fmt == d3d9::D3DFMT_D24X4S4 {
        Some(dxgi::DXGI_FORMAT_UNKNOWN)
    } else if fmt == d3d9::D3DFMT_S8_LOCKABLE {
        Some(dxgi::DXGI_FORMAT_UNKNOWN)
    } else if fmt == d3d9::D3DFMT_CxV8U8 {
        Some(dxgi::DXGI_FORMAT_UNKNOWN)
    } else if fmt == d3d9::D3DFMT_L6V5U5 {
        Some(dxgi::DXGI_FORMAT_UNKNOWN)
    } else if fmt == d3d9::D3DFMT_X8L8V8U8 {
        Some(dxgi::DXGI_FORMAT_UNKNOWN)
    } else if fmt == d3d9::D3DFMT_A2W10V10U10 {
        Some(dxgi::DXGI_FORMAT_UNKNOWN)
    } else if fmt == d3d9::D3DFMT_Q16W16V16U16 {
        Some(dxgi::DXGI_FORMAT_UNKNOWN)
    } else if fmt == d3d9::D3DFMT_UYVY {
        Some(dxgi::DXGI_FORMAT_UNKNOWN)
    } else if fmt == d3d9::D3DFMT_YUY2 {
        Some(dxgi::DXGI_FORMAT_UNKNOWN)
    } else {
        None
    }
}

/// The legacy format that the table picks for a modern format: the first
/// legacy format that is listed with it.
pub open spec fn d3d_format_of(fmt: u32) -> Option<u32> {
    if fmt == dxgi::DXGI_FORMAT_A8_UNORM {
        Some(d3d9::D3DFMT_A8)
    } else if fmt == dxgi::DXGI_FORMAT_R8_UNORM {
        Some(d3d9::D3DFMT_L8)
    } else if fmt == dxgi::DXGI_FORMAT_B5G6R5_UNORM {
        Some(d3d9::D3DFMT_R5G6B5)
    } else if fmt == dxgi::DXGI_FORMAT_B4G4R4A4_UNORM {
        Some(d3d9::D3DFMT_X4R4G4B4)
    } else if fmt == dxgi::DXGI_FORMAT_B5G5R5A1_UNORM {
        Some(d3d9::D3DFMT_X1R5G5B5)
    } else if fmt == dxgi::DXGI_FORMAT_R8G8_UNORM {
        Some(d3d9::D3DFMT_A8L8)
    } else if fmt == dxgi::DXGI_FORMAT_R16_UNORM {
        Some(d3d9::D3DFMT_L16)
    } else if fmt == dxgi::DXGI_FORMAT_R8G8B8A8_UNORM {
        Some(d3d9::D3DFMT_X8B8G8R8)
    } else if fmt == dxgi::DXGI_FORMAT_B8G8R8X8_UNORM {
        Some(d3d9::D3DFMT_X8R8G8B8)
    } else if fmt == dxgi::DXGI_FORMAT_B8G8R8A8_UNORM {
        Some(d3d9::D3DFMT_A8R8G8B8)
    } else if fmt == dxgi::DXGI_FORMAT_R16G16_UNORM {
        Some(d3d9::D3DFMT_G16R16)
    } else if fmt == dxgi::DXGI_FORMAT_R10G10B10A2_UNORM {
        Some(d3d9::D3DFMT_A2R10G10B10)
    } else if fmt == dxgi::DXGI_FORMAT_D16_UNORM {
        Some(d3d9::D3DFMT_D16_LOCKABLE)
    } else if fmt == dxgi::DXGI_FORMAT_D24_UNORM_S8_UINT {
        Some(d3d9::D3DFMT_D24S8)
    } else if fmt == dxgi::DXGI_FORMAT_D32_FLOAT {
        Some(d3d9::D3DFMT_D32)
    } else if fmt == dxgi::DXGI_FORMAT_BC1_UNORM {
        Some(d3d9::D3DFMT_DXT1)
    } else if fmt == dxgi::DXGI_FORMAT_BC2_UNORM {
        Some(d3d9::D3DFMT_DXT2)
    } else if fmt == dxgi::DXGI_FORMAT_BC3_UNORM {
        Some(d3d9::D3DFMT_DXT3)
    } else if fmt == dxgi::DXGI_FORMAT_BC4_UNORM {
        Some(d3d9::D3DFMT_DXT4)
    } else if fmt == dxgi::DXGI_FORMAT_BC5_UNORM {
        Some(d3d9::D3DFMT_DXT5)
    } else if fmt == dxgi::DXGI_FORMAT_G8R8_G8B8_UNORM {
        Some(d3d9::D3DFMT_R8G8_B8G8)
    } else if fmt == dxgi::DXGI_FORMAT_R8G8_B8G8_UNORM {
        Some(d3d9::D3DFMT_G8R8_G8B8)
    } else if fmt == dxgi::DXGI_FORMAT_R8G8_SNORM {
        Some(d3d9::D3DFMT_V8U8)
    } else if fmt == dxgi::DXGI_FORMAT_R8G8B8A8_SNORM {
        Some(d3d9::D3DFMT_Q8W8V8U8)
    } else if fmt == dxgi::DXGI_FORMAT_R16G16_SNORM {
        Some(d3d9::D3DFMT_V16U16)
    } else if fmt == dxgi::DXGI_FORMAT_R16_FLOAT {
        Some(d3d9::D3DFMT_R16F)
    } else if fmt == dxgi::DXGI_FORMAT_R16G16_FLOAT {
        Some(d3d9::D3DFMT_G16R16F)
    } else if fmt == dxgi::DXGI_FORMAT_R16G16B16A16_UNORM {
        Some(d3d9::D3DFMT_A16B16G16R16)
    } else if fmt == dxgi::DXGI_FORMAT_R16G16B16A16_FLOAT {
        Some(d3d9::D3DFMT_A16B16G16R16F)
    } else if fmt == dxgi::DXGI_FORMAT_R32_FLOAT {
        Some(d3d9::D3DFMT_R32F)
    } else if fmt == dxgi::DXGI_FORMAT_R32G32_FLOAT {
        Some(d3d9::D3DFMT_G32R32F)
    } else if fmt == dxgi::DXGI_FORMAT_R32G32B32A32_FLOAT {
        Some(d3d9::D3DFMT_A32B32G32R32F)
    } else if fmt == dxgi::DXGI_FORMAT_UNKNOWN {
        Some(d3d9::D3DFMT_UNKNOWN)
    } else {
        None
    }
}

/// The modern format of a general resource format, if the table has one.
pub fn checked_d3d_format_to_dxgi(fmt: u32) -> (res: Option<u32>)
    ensures
        res == dxgi_format_of(fmt),
{
    // 8 bit formats
    if fmt == d3d9::D3DFMT_A8 {
        Some(dxgi::DXGI_FORMAT_A8_UNORM)
    } else if fmt == d3d9::D3DFMT_L8 {
        Some(dxgi::DXGI_FORMAT_R8_UNORM)
    // 16 bit formats
    } else if fmt == d3d9::D3DFMT_R5G6B5 {
        Some(dxgi::DXGI_FORMAT_B5G6R5_UNORM)
    } else if fmt == d3d9::D3DFMT_X4R4G4B4 {
        Some(dxgi::DXGI_FORMAT_B4G4R4A4_UNORM)
    } else if fmt == d3d9::D3DFMT_A4R4G4B4 {
        Some(dxgi::DXGI_FORMAT_B4G4R4A4_UNORM)
    } else if fmt == d3d9::D3DFMT_X1R5G5B5 {
        Some(dxgi::DXGI_FORMAT_B5G5R5A1_UNORM)
    } else if fmt == d3d9::D3DFMT_A1R5G5B5 {
        Some(dxgi::DXGI_FORMAT_B5G5R5A1_UNORM)
    } else if fmt == d3d9::D3DFMT_A8L8 {
        Some(dxgi::DXGI_FORMAT_R8G8_UNORM)
    } else if fmt == d3d9::D3DFMT_L16 {
        Some(dxgi::DXGI_FORMAT_R16_UNORM)
    // 32 bit formats
    } else if fmt == d3d9::D3DFMT_X8B8G8R8 {
        Some(dxgi::DXGI_FORMAT_R8G8B8A8_UNORM)
    } else if fmt == d3d9::D3DFMT_X8R8G8B8 {
        Some(dxgi::DXGI_FORMAT_B8G8R8X8_UNORM)
    } else if fmt == d3d9::D3DFMT_A8R8G8B8 {
        Some(dxgi::DXGI_FORMAT_B8G8R8A8_UNORM)
    } else if fmt == d3d9::D3DFMT_A8B8G8R8 {
        Some(dxgi::DXGI_FORMAT_R8G8B8A8_UNORM)
    } else if fmt == d3d9::D3DFMT_G16R16 {
        Some(dxgi::DXGI_FORMAT_R16G16_UNORM)
    // HDR formats
    } else if fmt == d3d9::D3DFMT_A2R10G10B10 {
        Some(dxgi::DXGI_FORMAT_R10G10B10A2_UNORM)
    } else if fmt == d3d9::D3DFMT_A2B10G10R10 {
        Some(dxgi::DXGI_FORMAT_R10G10B10A2_UNORM)
    // Depth / stencil formats
    } else if fmt == d3d9::D3DFMT_D16_LOCKABLE {
        Some(dxgi::DXGI_FORMAT_D16_UNORM)
    } else if fmt == d3d9::D3DFMT_D16 {
        Some(dxgi::DXGI_FORMAT_D16_UNORM)
    } else if fmt == d3d9::D3DFMT_D24S8 {
        Some(dxgi::DXGI_FORMAT_D24_UNORM_S8_UINT)
    } else if fmt == d3d9::D3DFMT_D24X8 {
        Some(dxgi::DXGI_FORMAT_D24_UNORM_S8_UINT)
    } else if fmt == d3d9::D3DFMT_D32 {
        Some(dxgi::DXGI_FORMAT_D32_FLOAT)
    } else if fmt == d3d9::D3DFMT_D32F_LOCKABLE {
        Some(dxgi::DXGI_FORMAT_D32_FLOAT)
    // Compressed formats
    } else if fmt == d3d9::D3DFMT_DXT1 {
        Some(dxgi::DXGI_FORMAT_BC1_UNORM)
    } else if fmt == d3d9::D3DFMT_DXT2 {
        Some(dxgi::DXGI_FORMAT_BC2_UNORM)
    } else if fmt == d3d9::D3DFMT_DXT3 {
        Some(dxgi::DXGI_FORMAT_BC3_UNORM)
    } else if fmt == d3d9::D3DFMT_DXT4 {
        Some(dxgi::DXGI_FORMAT_BC4_UNORM)
    } else if fmt == d3d9::D3DFMT_DXT5 {
        Some(dxgi::DXGI_FORMAT_BC5_UNORM)
    // Special formats: mostly used for hardware video.
    } else if fmt == d3d9::D3DFMT_R8G8_B8G8 {
        Some(dxgi::DXGI_FORMAT_G8R8_G8B8_UNORM)
    } else if fmt == d3d9::D3DFMT_G8R8_G8B8 {
        Some(dxgi::DXGI_FORMAT_R8G8_B8G8_UNORM)
    // Signed formats
    } else if fmt == d3d9::D3DFMT_V8U8 {
        Some(dxgi::DXGI_FORMAT_R8G8_SNORM)
    } else if fmt == d3d9::D3DFMT_Q8W8V8U8 {
        Some(dxgi::DXGI_FORMAT_R8G8B8A8_SNORM)
    } else if fmt == d3d9::D3DFMT_V16U16 {
        Some(dxgi::DXGI_FORMAT_R16G16_SNORM)
    // Buffer formats
    } else if fmt == d3d9::D3DFMT_R16F {
        Some(dxgi::DXGI_FORMAT_R16_FLOAT)
    } else if fmt == d3d9::D3DFMT_G16R16F {
        Some(dxgi::DXGI_FORMAT_R16G16_FLOAT)
    } else if fmt == d3d9::D3DFMT_A16B16G16R16 {
        Some(dxgi::DXGI_FORMAT_R16G16B16A16_UNORM)
    } else if fmt == d3d9::D3DFMT_A16B16G16R16F {
        Some(dxgi::DXGI_FORMAT_R16G16B16A16_FLOAT)
    } else if fmt == d3d9::D3DFMT_R32F {
        Some(dxgi::DXGI_FORMAT_R32_FLOAT)
    } else if fmt == d3d9::D3DFMT_G32R32F {
        Some(dxgi::DXGI_FORMAT_R32G32_FLOAT)
    } else if fmt == d3d9::D3DFMT_A32B32G32R32F {
        Some(dxgi::DXGI_FORMAT_R32G32B32A32_FLOAT)
    // Unknown format
    } else if fmt == d3d9::D3DFMT_UNKNOWN {
        Some(dxgi::DXGI_FORMAT_UNKNOWN)
    // Unsupported formats
    } else if fmt == d3d9::D3DFMT_P8 {
        Some(dxgi::DXGI_FORMAT_UNKNOWN)
    } else if fmt == d3d9::D3DFMT_A8P8 {
        Some(dxgi::DXGI_FORMAT_UNKNOWN)
    } else if fmt == d3d9::D3DFMT_A4L4 {
        Some(dxgi::DXGI_FORMAT_UNKNOWN)
    } else if fmt == d3d9::D3DFMT_R3G3B2 {
        Some(dxgi::DXGI_FORMAT_UNKNOWN)
    } else if fmt == d3d9::D3DFMT_A8R3G3B2 {
        Some(dxgi::DXGI_FORMAT_UNKNOWN)
    } else if fmt == d3d9::D3DFMT_R8G8B8 {
        Some(dxgi::DXGI_FORMAT_UNKNOWN)
    } else if fmt == d3d9::D3DFMT_D15S1 {
        Some(dxgi::DXGI_FORMAT_UNKNOWN)
    } else if fmt == d3d9::D3DFMT_D24FS8 {
        Some(dxgi::DXGI_FORMAT_UNKNOWN)
    } else if fmt == d3d9::D3DFMT_D24X4S4 {
        Some(dxgi::DXGI_FORMAT_UNKNOWN)
    } else if fmt == d3d9::D3DFMT_S8_LOCKABLE {
        Some(dxgi::DXGI_FORMAT_UNKNOWN)
    } else if fmt == d3d9::D3DFMT_CxV8U8 {
        Some(dxgi::DXGI_FORMAT_UNKNOWN)
    } else if fmt == d3d9::D3DFMT_L6V5U5 {
        Some(dxgi::DXGI_FORMAT_UNKNOWN)
    } else if fmt == d3d9::D3DFMT_X8L8V8U8 {
        Some(dxgi::DXGI_FORMAT_UNKNOWN)
    } else if fmt == d3d9::D3DFMT_A2W10V10U10 {
        Some(dxgi::DXGI_FORMAT_UNKNOWN)
    } else if fmt == d3d9::D3DFMT_Q16W16V16U16 {
        Some(dxgi::DXGI_FORMAT_UNKNOWN)
    } else if fmt == d3d9::D3DFMT_UYVY {
        Some(dxgi::DXGI_FORMAT_UNKNOWN)
    } else if fmt == d3d9::D3DFMT_YUY2 {
        Some(dxgi::DXGI_FORMAT_UNKNOWN)
    } else {
        None
    }
}

/// Converts a general resource format to a modern format.
pub fn d3d_format_to_dxgi(fmt: u32) -> (res: u32)
    requires
        dxgi_format_of(fmt).is_some(),
    ensures
        dxgi_format_of(fmt) == Some(res),
{
    checked_d3d_format_to_dxgi(fmt).unwrap()
}

/// The legacy format of a modern format, if the table has one.
pub fn checked_dxgi_format_to_d3d(fmt: u32) -> (res: Option<u32>)
    ensures
        res == d3d_format_of(fmt),
{
    // Some modern formats map to multiple legacy formats.
    if fmt == dxgi::DXGI_FORMAT_A8_UNORM {
        Some(d3d9::D3DFMT_A8)
    } else if fmt == dxgi::DXGI_FORMAT_R8_UNORM {
        Some(d3d9::D3DFMT_L8)
    } else if fmt == dxgi::DXGI_FORMAT_B5G6R5_UNORM {
        Some(d3d9::D3DFMT_R5G6B5)
    } else if fmt == dxgi::DXGI_FORMAT_B4G4R4A4_UNORM {
        Some(d3d9::D3DFMT_X4R4G4B4)
    } else if fmt == dxgi::DXGI_FORMAT_B5G5R5A1_UNORM {
        Some(d3d9::D3DFMT_X1R5G5B5)
    } else if fmt == dxgi::DXGI_FORMAT_R8G8_UNORM {
        Some(d3d9::D3DFMT_A8L8)
    } else if fmt == dxgi::DXGI_FORMAT_R16_UNORM {
        Some(d3d9::D3DFMT_L16)
    } else if fmt == dxgi::DXGI_FORMAT_R8G8B8A8_UNORM {
        Some(d3d9::D3DFMT_X8B8G8R8)
    } else if fmt == dxgi::DXGI_FORMAT_B8G8R8X8_UNORM {
        Some(d3d9::D3DFMT_X8R8G8B8)
    } else if fmt == dxgi::DXGI_FORMAT_B8G8R8A8_UNORM {
        Some(d3d9::D3DFMT_A8R8G8B8)
    } else if fmt == dxgi::DXGI_FORMAT_R16G16_UNORM {
        Some(d3d9::D3DFMT_G16R16)
    } else if fmt == dxgi::DXGI_FORMAT_R10G10B10A2_UNORM {
        Some(d3d9::D3DFMT_A2R10G10B10)
    } else if fmt == dxgi::DXGI_FORMAT_D16_UNORM {
        Some(d3d9::D3DFMT_D16_LOCKABLE)
    } else if fmt == dxgi::DXGI_FORMAT_D24_UNORM_S8_UINT {
        Some(d3d9::D3DFMT_D24S8)
    } else if fmt == dxgi::DXGI_FORMAT_D32_FLOAT {
        Some(d3d9::D3DFMT_D32)
    } else if fmt == dxgi::DXGI_FORMAT_BC1_UNORM {
        Some(d3d9::D3DFMT_DXT1)
    } else if fmt == dxgi::DXGI_FORMAT_BC2_UNORM {
        Some(d3d9::D3DFMT_DXT2)
    } else if fmt == dxgi::DXGI_FORMAT_BC3_UNORM {
        Some(d3d9::D3DFMT_DXT3)
    } else if fmt == dxgi::DXGI_FORMAT_BC4_UNORM {
        Some(d3d9::D3DFMT_DXT4)
    } else if fmt == dxgi::DXGI_FORMAT_BC5_UNORM {
        Some(d3d9::D3DFMT_DXT5)
    } else if fmt == dxgi::DXGI_FORMAT_G8R8_G8B8_UNORM {
        Some(d3d9::D3DFMT_R8G8_B8G8)
    } else if fmt == dxgi::DXGI_FORMAT_R8G8_B8G8_UNORM {
        Some(d3d9::D3DFMT_G8R8_G8B8)
    } else if fmt == dxgi::DXGI_FORMAT_R8G8_SNORM {
        Some(d3d9::D3DFMT_V8U8)
    } else if fmt == dxgi::DXGI_FORMAT_R8G8B8A8_SNORM {
        Some(d3d9::D3DFMT_Q8W8V8U8)
    } else if fmt == dxgi::DXGI_FORMAT_R16G16_SNORM {
        Some(d3d9::D3DFMT_V16U16)
    } else if fmt == dxgi::DXGI_FORMAT_R16_FLOAT {
        Some(d3d9::D3DFMT_R16F)
    } else if fmt == dxgi::DXGI_FORMAT_R16G16_FLOAT {
        Some(d3d9::D3DFMT_G16R16F)
    } else if fmt == dxgi::DXGI_FORMAT_R16G16B16A16_UNORM {
        Some(d3d9::D3DFMT_A16B16G16R16)
    } else if fmt == dxgi::DXGI_FORMAT_R16G16B16A16_FLOAT {
        Some(d3d9::D3DFMT_A16B16G16R16F)
    } else if fmt == dxgi::DXGI_FORMAT_R32_FLOAT {
        Some(d3d9::D3DFMT_R32F)
    } else if fmt == dxgi::DXGI_FORMAT_R32G32_FLOAT {
        Some(d3d9::D3DFMT_G32R32F)
    } else if fmt == dxgi::DXGI_FORMAT_R32G32B32A32_FLOAT {
        Some(d3d9::D3DFMT_A32B32G32R32F)
    } else if fmt == dxgi::DXGI_FORMAT_UNKNOWN {
        Some(d3d9::D3DFMT_UNKNOWN)
    } else {
        None
    }
}

/// Converts a modern format back into a legacy format.
pub fn dxgi_format_to_d3d(fmt: u32) -> (res: u32)
    requires
        d3d_format_of(fmt).is_some(),
    ensures
        d3d_format_of(fmt) == Some(res),
{
    checked_dxgi_format_to_d3d(fmt).unwrap()
}

/// Every format that can be asked for as a display mode has a modern display
/// format, and that format is one of two: the layout of 32 bits with alpha,
/// or the ten-bit layout.
pub proof fn display_mode_formats_are_canonical(fmt: u32)
    requires
        display_mode_format(fmt),
    ensures
        display_format_of(fmt) == Some(dxgi::DXGI_FORMAT_B8G8R8A8_UNORM)
            || display_format_of(fmt) == Some(dxgi::DXGI_FORMAT_R10G10B10A2_UNORM),
        display_format_of(fmt) == Some(dxgi::DXGI_FORMAT_R10G10B10A2_UNORM)
            <==> fmt == d3d9::D3DFMT_A2R10G10B10,
{
}

/// Whatever display format comes out of the table is one of the two
/// canonical formats.
pub proof fn display_formats_are_canonical(fmt: u32)
    requires
        display_format_of(fmt).is_some(),
    ensures
        display_format_of(fmt) == Some(dxgi::DXGI_FORMAT_B8G8R8A8_UNORM)
            || display_format_of(fmt) == Some(dxgi::DXGI_FORMAT_R10G10B10A2_UNORM),
{
}

/// Every modern format that the table produces can be taken back, and every
/// legacy format that comes back is in the table.
pub proof fn translated_formats_convert_back(fmt: u32)
    requires
        dxgi_format_of(fmt).is_some(),
    ensures
        d3d_format_of(dxgi_format_of(fmt).unwrap()).is_some(),
        dxgi_format_of(d3d_format_of(dxgi_format_of(fmt).unwrap()).unwrap())
            == dxgi_format_of(fmt),
{
}

/// The legacy format picked for a modern format means the same: converted
/// forth again it gives the modern format it was picked for.
pub proof fn picked_format_is_equivalent(fmt: u32)
    requires
        d3d_format_of(fmt).is_some(),
    ensures
        dxgi_format_of(d3d_format_of(fmt).unwrap()) == Some(fmt),
{
}

} // verus!
