//! Extension methods for surface formats of the legacy interface.
//!
//! A format is the plain number that the legacy interface uses for it.

use vstd::prelude::*;
use crate::abi::d3d9;
use crate::abi::dxgi;
use crate::base::fmt::{
    checked_d3d_display_format_to_dxgi, depth_stencil_format, display_format_of,
    display_mode_format,
};

verus! {

/// The modern format in which a resource of the given legacy format is
/// created. A lot of the formats with red first turn into formats with blue
/// first, which is what modern hardware uses natively; formats narrower than
/// any modern one are widened, and each compressed format goes to the block
/// compression of its number. Formats that have no modern counterpart at
/// all, such as the palettized ones, are not in the table.
pub open spec fn resource_format_of(fmt: u32) -> Option<u32> {
    // 8 bit formats
    if fmt == d3d9::D3DFMT_R3G3B2 {
        Some(dxgi::DXGI_FORMAT_R8_UNORM)
    } else if fmt == d3d9::D3DFMT_A8 {
        Some(dxgi::DXGI_FORMAT_A8_UNORM)
    } else if fmt == d3d9::D3DFMT_L8 {
        Some(dxgi::DXGI_FORMAT_R8_UNORM)
    // 16 bit formats
    } else if fmt == d3d9::D3DFMT_A8R3G3B2 {
        Some(dxgi::DXGI_FORMAT_R8G8_UNORM)
    } else if fmt == d3d9::D3DFMT_R5G6B5 {
        Some(dxgi::DXGI_FORMAT_B5G6R5_UNORM)
    } else if fmt == d3d9::D3DFMT_X4R4G4B4 {
        Some(dxgi::DXGI_FORMAT_B4G4R4A4_UNORM)
    } else if fmt == d3d9::D3DFMT_A4R4G4B4 {
        Some(dxgi::DXGI_FORMAT_B4G4R4A4_UNORM)
    } else if fmt == d3d9::D3DFMT_X1R5G5B5 {
        Some(dxgi::DXGI_FORMAT_B5G5R5A1_UNORM)
    } else if fmt == d3d9::D3DFMT_A1R5G5B5 {
        Some(dxgi::DXGI_FORMAT_B5G5R5A1_UNORM)
    } else if fmt == d3d9::D3DFMT_L16 {
        Some(dxgi::DXGI_FORMAT_R16_UNORM)
    // 24 bit formats
    } else if fmt == d3d9::D3DFMT_R8G8B8 {
        Some(dxgi::DXGI_FORMAT_B8G8R8X8_UNORM)
    // 32 bit formats
    } else if fmt == d3d9::D3DFMT_X8R8G8B8 {
        Some(dxgi::DXGI_FORMAT_B8G8R8X8_UNORM)
    } else if fmt == d3d9::D3DFMT_A8R8G8B8 {
        Some(dxgi::DXGI_FORMAT_B8G8R8A8_UNORM)
    } else if fmt == d3d9::D3DFMT_A8B8G8R8 {
        Some(dxgi::DXGI_FORMAT_B8G8R8A8_UNORM)
    } else if fmt == d3d9::D3DFMT_X8B8G8R8 {
        Some(dxgi::DXGI_FORMAT_B8G8R8X8_UNORM)
    } else if fmt == d3d9::D3DFMT_G16R16 {
        Some(dxgi::DXGI_FORMAT_R16G16_UNORM)
    // Depth / stencil formats
    } else if fmt == d3d9::D3DFMT_S8_LOCKABLE {
        Some(dxgi::DXGI_FORMAT_R8_UNORM)
    } else if fmt == d3d9::D3DFMT_D16_LOCKABLE {
        Some(dxgi::DXGI_FORMAT_D16_UNORM)
    } else if fmt == d3d9::D3DFMT_D16 {
        Some(dxgi::DXGI_FORMAT_D16_UNORM)
    } else if fmt == d3d9::D3DFMT_D15S1 {
        Some(dxgi::DXGI_FORMAT_D16_UNORM)
    } else if fmt == d3d9::D3DFMT_D24S8 {
        Some(dxgi::DXGI_FORMAT_D24_UNORM_S8_UINT)
    } else if fmt == d3d9::D3DFMT_D24FS8 {
        Some(dxgi::DXGI_FORMAT_D24_UNORM_S8_UINT)
    } else if fmt == d3d9::D3DFMT_D24X8 {
        Some(dxgi::DXGI_FORMAT_D24_UNORM_S8_UINT)
    } else if fmt == d3d9::D3DFMT_D24X4S4 {
        Some(dxgi::DXGI_FORMAT_D24_UNORM_S8_UINT)
    } else if fmt == d3d9::D3DFMT_D32 {
        Some(dxgi::DXGI_FORMAT_D32_FLOAT)
    } else if fmt == d3d9::D3DFMT_D32F_LOCKABLE {
        Some(dxgi::DXGI_FORMAT_D32_FLOAT)
    } else if fmt == d3d9::D3DFMT_D32_LOCKABLE {
        Some(dxgi::DXGI_FORMAT_D32_FLOAT)
    // HDR formats
    } else if fmt == d3d9::D3DFMT_A2R10G10B10 {
        Some(dxgi::DXGI_FORMAT_R10G10B10A2_UNORM)
    } else if fmt == d3d9::D3DFMT_A2B10G10R10 {
        Some(dxgi::DXGI_FORMAT_R10G10B10A2_UNORM)
    // Buffer formats
    } else if fmt == d3d9::D3DFMT_R16F {
        Some(dxgi::DXGI_FORMAT_R16_FLOAT)
    } else if fmt == d3d9::D3DFMT_G16R16F {
        Some(dxgi::DXGI_FORMAT_R16G16_FLOAT)
    } else if fmt == d3d9::D3DFMT_A16B16G16R16 {
        Some(dxgi::DXGI_FORMAT_R16G16B16A16_UINT)
    } else if fmt == d3d9::D3DFMT_A16B16G16R16F {
        Some(dxgi::DXGI_FORMAT_R16G16B16A16_FLOAT)
    } else if fmt == d3d9::D3DFMT_R32F {
        Some(dxgi::DXGI_FORMAT_R32_FLOAT)
    } else if fmt == d3d9::D3DFMT_G32R32F {
        Some(dxgi::DXGI_FORMAT_R32G32_FLOAT)
    } else if fmt == d3d9::D3DFMT_A32B32G32R32F {
        Some(dxgi::DXGI_FORMAT_R32G32B32A32_FLOAT)
    // Compressed formats
    } else if fmt == d3d9::D3DFMT_DXT1 {
        Some(dxgi::DXGI_FORMAT_BC1_UNORM)
    } else if fmt == d3d9::D3DFMT_DXT2 {
        Some(dxgi::DXGI_FORMAT_BC2_UNORM)
    } else if fmt == d3d9::D3DFMT_DXT3 {
        Some(dxgi::DXGI_FORMAT_BC3_UNORM)
    } else if fmt == d3d9::D3DFMT_DXT4 {
        Some(dxgi::DXGI_FORMAT_BC4_UNORM)
    } else if fmt == d3d9::D3DFMT_DXT5 {
        Some(dxgi::DXGI_FORMAT_BC5_UNORM)
    // Luminance with alpha
    } else if fmt == d3d9::D3DFMT_A8L8 {
        Some(dxgi::DXGI_FORMAT_R8G8_UNORM)
    // Special formats: mostly used for hardware video.
    } else if fmt == d3d9::D3DFMT_R8G8_B8G8 {
        Some(dxgi::DXGI_FORMAT_G8R8_G8B8_UNORM)
    } else if fmt == d3d9::D3DFMT_G8R8_G8B8 {
        Some(dxgi::DXGI_FORMAT_R8G8_B8G8_UNORM)
    // Signed formats
    } else if fmt == d3d9::D3DFMT_V8U8 {
        Some(dxgi::DXGI_FORMAT_R8G8_SNORM)
    } else if fmt == d3d9::D3DFMT_Q8W8V8U8 {
        Some(dxgi::DXGI_FORMAT_R8G8B8A8_SNORM)
    } else if fmt == d3d9::D3DFMT_V16U16 {
        Some(dxgi::DXGI_FORMAT_R16G16_SNORM)
    // Unknown formats
    } else if fmt == d3d9::D3DFMT_UNKNOWN {
        Some(dxgi::DXGI_FORMAT_UNKNOWN)
    } else {
        None
    }
}

/// Extensions for the legacy format type.
pub trait D3DFormatExt: Sized {
    /// The modern format of a general resource format, if it has one.
    spec fn dxgi(self) -> Option<u32>;

    /// The modern format of a display mode format, if it has one.
    spec fn dxgi_display(self) -> Option<u32>;

    /// Whether the format can be asked for as a display mode.
    spec fn display_mode(&self) -> bool;

    /// Whether the format lies in the range of the depth / stencil formats.
    spec fn depth_stencil(&self) -> bool;

    /// The modern format of a general resource format, if it has one.
    fn checked_to_dxgi(self) -> (res: Option<u32>)
        ensures
            res == self.dxgi(),
    ;

    /// Converts a general resource format to a modern format.
    fn to_dxgi(self) -> (res: u32)
        requires
            self.dxgi().is_some(),
        ensures
            self.dxgi() == Some(res),
    ;

    /// Converts a display mode format to its corresponding modern format.
    fn to_dxgi_display_format(self) -> (res: u32)
        requires
            self.dxgi_display().is_some(),
        ensures
            self.dxgi_display() == Some(res),
    ;

    // Functions for validating the various format types.

    /// Checks if a given format is valid to be used when setting the mode of the display.
    ///
    /// Note that on modern computers we cannot change the display's format,
    /// this is just for sanity checking.
    fn is_display_mode_format(&self) -> (res: bool)
        ensures
            res == self.display_mode(),
    ;

    /// Checks if a given format is a valid depth / stencil buffer format.
    fn is_depth_stencil_format(&self) -> (res: bool)
        ensures
            res == self.depth_stencil(),
    ;
}

impl D3DFormatExt for u32 {
    open spec fn dxgi(self) -> Option<u32> {
        resource_format_of(self)
    }

    open spec fn dxgi_display(self) -> Option<u32> {
        display_format_of(self)
    }

    open spec fn display_mode(&self) -> bool {
        display_mode_format(*self)
    }

    open spec fn depth_stencil(&self) -> bool {
        depth_stencil_format(*self)
    }

    fn checked_to_dxgi(self) -> (res: Option<u32>) {
        let fmt = self;
        // 8 bit formats
        if fmt == d3d9::D3DFMT_R3G3B2 {
            Some(dxgi::DXGI_FORMAT_R8_UNORM)
        } else if fmt == d3d9::D3DFMT_A8 {
            Some(dxgi::DXGI_FORMAT_A8_UNORM)
        } else if fmt == d3d9::D3DFMT_L8 {
            Some(dxgi::DXGI_FORMAT_R8_UNORM)
        // 16 bit formats
        } else if fmt == d3d9::D3DFMT_A8R3G3B2 {
            Some(dxgi::DXGI_FORMAT_R8G8_UNORM)
        } else if fmt == d3d9::D3DFMT_R5G6B5 {
            Some(dxgi::DXGI_FORMAT_B5G6R5_UNORM)
        } else if fmt == d3d9::D3DFMT_X4R4G4B4 {
            Some(dxgi::DXGI_FORMAT_B4G4R4A4_UNORM)
        } else if fmt == d3d9::D3DFMT_A4R4G4B4 {
            Some(dxgi::DXGI_FORMAT_B4G4R4A4_UNORM)
        } else if fmt == d3d9::D3DFMT_X1R5G5B5 {
            Some(dxgi::DXGI_FORMAT_B5G5R5A1_UNORM)
        } else if fmt == d3d9::D3DFMT_A1R5G5B5 {
            Some(dxgi::DXGI_FORMAT_B5G5R5A1_UNORM)
        } else if fmt == d3d9::D3DFMT_L16 {
            Some(dxgi::DXGI_FORMAT_R16_UNORM)
        // 24 bit formats
        } else if fmt == d3d9::D3DFMT_R8G8B8 {
            Some(dxgi::DXGI_FORMAT_B8G8R8X8_UNORM)
        // 32 bit formats
        } else if fmt == d3d9::D3DFMT_X8R8G8B8 {
            Some(dxgi::DXGI_FORMAT_B8G8R8X8_UNORM)
        } else if fmt == d3d9::D3DFMT_A8R8G8B8 {
            Some(dxgi::DXGI_FORMAT_B8G8R8A8_UNORM)
        } else if fmt == d3d9::D3DFMT_A8B8G8R8 {
            Some(dxgi::DXGI_FORMAT_B8G8R8A8_UNORM)
        } else if fmt == d3d9::D3DFMT_X8B8G8R8 {
            Some(dxgi::DXGI_FORMAT_B8G8R8X8_UNORM)
        } else if fmt == d3d9::D3DFMT_G16R16 {
            Some(dxgi::DXGI_FORMAT_R16G16_UNORM)
        // Depth / stencil formats
        } else if fmt == d3d9::D3DFMT_S8_LOCKABLE {
            Some(dxgi::DXGI_FORMAT_R8_UNORM)
        } else if fmt == d3d9::D3DFMT_D16_LOCKABLE {
            Some(dxgi::DXGI_FORMAT_D16_UNORM)
        } else if fmt == d3d9::D3DFMT_D16 {
            Some(dxgi::DXGI_FORMAT_D16_UNORM)
        } else if fmt == d3d9::D3DFMT_D15S1 {
            Some(dxgi::DXGI_FORMAT_D16_UNORM)
        } else if fmt == d3d9::D3DFMT_D24S8 {
            Some(dxgi::DXGI_FORMAT_D24_UNORM_S8_UINT)
        } else if fmt == d3d9::D3DFMT_D24FS8 {
            Some(dxgi::DXGI_FORMAT_D24_UNORM_S8_UINT)
        } else if fmt == d3d9::D3DFMT_D24X8 {
            Some(dxgi::DXGI_FORMAT_D24_UNORM_S8_UINT)
        } else if fmt == d3d9::D3DFMT_D24X4S4 {
            Some(dxgi::DXGI_FORMAT_D24_UNORM_S8_UINT)
        } else if fmt == d3d9::D3DFMT_D32 {
            Some(dxgi::DXGI_FORMAT_D32_FLOAT)
        } else if fmt == d3d9::D3DFMT_D32F_LOCKABLE {
            Some(dxgi::DXGI_FORMAT_D32_FLOAT)
        } else if fmt == d3d9::D3DFMT_D32_LOCKABLE {
            Some(dxgi::DXGI_FORMAT_D32_FLOAT)
        // HDR formats
        } else if fmt == d3d9::D3DFMT_A2R10G10B10 {
            Some(dxgi::DXGI_FORMAT_R10G10B10A2_UNORM)
        } else if fmt == d3d9::D3DFMT_A2B10G10R10 {
            Some(dxgi::DXGI_FORMAT_R10G10B10A2_UNORM)
        // Buffer formats
        } else if fmt == d3d9::D3DFMT_R16F {
            Some(dxgi::DXGI_FORMAT_R16_FLOAT)
        } else if fmt == d3d9::D3DFMT_G16R16F {
            Some(dxgi::DXGI_FORMAT_R16G16_FLOAT)
        } else if fmt == d3d9::D3DFMT_A16B16G16R16 {
            Some(dxgi::DXGI_FORMAT_R16G16B16A16_UINT)
        } else if fmt == d3d9::D3DFMT_A16B16G16R16F {
            Some(dxgi::DXGI_FORMAT_R16G16B16A16_FLOAT)
        } else if fmt == d3d9::D3DFMT_R32F {
            Some(dxgi::DXGI_FORMAT_R32_FLOAT)
        } else if fmt == d3d9::D3DFMT_G32R32F {
            Some(dxgi::DXGI_FORMAT_R32G32_FLOAT)
        } else if fmt == d3d9::D3DFMT_A32B32G32R32F {
            Some(dxgi::DXGI_FORMAT_R32G32B32A32_FLOAT)
        // Compressed formats
        } else if fmt == d3d9::D3DFMT_DXT1 {
            Some(dxgi::DXGI_FORMAT_BC1_UNORM)
        } else if fmt == d3d9::D3DFMT_DXT2 {
            Some(dxgi::DXGI_FORMAT_BC2_UNORM)
        } else if fmt == d3d9::D3DFMT_DXT3 {
            Some(dxgi::DXGI_FORMAT_BC3_UNORM)
        } else if fmt == d3d9::D3DFMT_DXT4 {
            Some(dxgi::DXGI_FORMAT_BC4_UNORM)
        } else if fmt == d3d9::D3DFMT_DXT5 {
            Some(dxgi::DXGI_FORMAT_BC5_UNORM)
        // Luminance with alpha
        } else if fmt == d3d9::D3DFMT_A8L8 {
            Some(dxgi::DXGI_FORMAT_R8G8_UNORM)
        // Special formats: mostly used for hardware video.
        } else if fmt == d3d9::D3DFMT_R8G8_B8G8 {
            Some(dxgi::DXGI_FORMAT_G8R8_G8B8_UNORM)
        } else if fmt == d3d9::D3DFMT_G8R8_G8B8 {
            Some(dxgi::DXGI_FORMAT_R8G8_B8G8_UNORM)
        // Signed formats
        } else if fmt == d3d9::D3DFMT_V8U8 {
            Some(dxgi::DXGI_FORMAT_R8G8_SNORM)
        } else if fmt == d3d9::D3DFMT_Q8W8V8U8 {
            Some(dxgi::DXGI_FORMAT_R8G8B8A8_SNORM)
        } else if fmt == d3d9::D3DFMT_V16U16 {
            Some(dxgi::DXGI_FORMAT_R16G16_SNORM)
        // Unknown formats
        } else if fmt == d3d9::D3DFMT_UNKNOWN {
            Some(dxgi::DXGI_FORMAT_UNKNOWN)
        } else {
            None
        }
    }

    fn to_dxgi(self) -> (res: u32) {
        self.checked_to_dxgi().unwrap()
    }

    fn to_dxgi_display_format(self) -> (res: u32) {
        checked_d3d_display_format_to_dxgi(self).unwrap()
    }

    fn is_display_mode_format(&self) -> (res: bool) {
        crate::base::fmt::is_display_mode_format(*self)
    }

    fn is_depth_stencil_format(&self) -> (res: bool) {
        crate::base::fmt::is_depth_stencil_format(*self)
    }
}

/// The compressed formats are resource formats, each with the block
/// compression of its number.
pub proof fn compressed_formats_are_resource_formats()
    ensures
        resource_format_of(d3d9::D3DFMT_DXT1) == Some(dxgi::DXGI_FORMAT_BC1_UNORM),
        resource_format_of(d3d9::D3DFMT_DXT2) == Some(dxgi::DXGI_FORMAT_BC2_UNORM),
        resource_format_of(d3d9::D3DFMT_DXT3) == Some(dxgi::DXGI_FORMAT_BC3_UNORM),
        resource_format_of(d3d9::D3DFMT_DXT4) == Some(dxgi::DXGI_FORMAT_BC4_UNORM),
        resource_format_of(d3d9::D3DFMT_DXT5) == Some(dxgi::DXGI_FORMAT_BC5_UNORM),
{
}

/// The signed formats are resource formats, each with the signed modern
/// format of its layout.
pub proof fn signed_formats_are_resource_formats()
    ensures
        resource_format_of(d3d9::D3DFMT_V8U8) == Some(dxgi::DXGI_FORMAT_R8G8_SNORM),
        resource_format_of(d3d9::D3DFMT_Q8W8V8U8) == Some(dxgi::DXGI_FORMAT_R8G8B8A8_SNORM),
        resource_format_of(d3d9::D3DFMT_V16U16) == Some(dxgi::DXGI_FORMAT_R16G16_SNORM),
{
}

/// Every format that can be asked for as a display mode is a resource format
/// too, so the display modes of an output can be listed for it.
pub proof fn display_mode_formats_are_resource_formats(fmt: u32)
    requires
        display_mode_format(fmt),
    ensures
        resource_format_of(fmt).is_some(),
{
}

} // verus!
