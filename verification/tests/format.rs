use d3d9_to_11::abi::d3d9::{
    D3DFMT_A1R5G5B5, D3DFMT_A2B10G10R10, D3DFMT_A2R10G10B10, D3DFMT_A4R4G4B4, D3DFMT_A8,
    D3DFMT_A8B8G8R8, D3DFMT_A8R8G8B8, D3DFMT_D16, D3DFMT_D16_LOCKABLE, D3DFMT_D24S8, D3DFMT_DXT1,
    D3DFMT_INDEX16, D3DFMT_L16, D3DFMT_P8, D3DFMT_R3G3B2, D3DFMT_R5G6B5, D3DFMT_R8G8B8,
    D3DFMT_S8_LOCKABLE, D3DFMT_UNKNOWN, D3DFMT_VERTEXDATA, D3DFMT_X1R5G5B5, D3DFMT_X4R4G4B4,
    D3DFMT_X8B8G8R8, D3DFMT_X8R8G8B8,
};
use d3d9_to_11::abi::dxgi::{
    DXGI_FORMAT_A8_UNORM, DXGI_FORMAT_B4G4R4A4_UNORM, DXGI_FORMAT_B8G8R8A8_UNORM,
    DXGI_FORMAT_B8G8R8X8_UNORM, DXGI_FORMAT_BC1_UNORM, DXGI_FORMAT_D24_UNORM_S8_UINT,
    DXGI_FORMAT_R10G10B10A2_UNORM, DXGI_FORMAT_R8G8B8A8_UNORM, DXGI_FORMAT_R8_UNORM,
    DXGI_FORMAT_UNKNOWN,
};
use d3d9_to_11::base::fmt::{
    checked_d3d_display_format_to_dxgi, checked_d3d_format_to_dxgi, checked_dxgi_format_to_d3d,
    d3d_display_format_to_dxgi, d3d_format_to_dxgi, dxgi_format_to_d3d, is_depth_stencil_format,
    is_display_mode_format,
};
use d3d9_to_11::base::format::D3DFormatExt;

#[test]
fn format_numbers_are_those_of_the_interfaces() {
    assert_eq!(D3DFMT_UNKNOWN, 0);
    assert_eq!(D3DFMT_R8G8B8, 20);
    assert_eq!(D3DFMT_A8R8G8B8, 21);
    assert_eq!(D3DFMT_A1R5G5B5, 25);
    assert_eq!(D3DFMT_A2R10G10B10, 35);
    assert_eq!(D3DFMT_D16_LOCKABLE, 70);
    assert_eq!(D3DFMT_S8_LOCKABLE, 85);
    assert_eq!(D3DFMT_DXT1, 0x3154_5844);
    assert_eq!(DXGI_FORMAT_B8G8R8A8_UNORM, 87);
    assert_eq!(DXGI_FORMAT_R10G10B10A2_UNORM, 24);
    assert_eq!(DXGI_FORMAT_B8G8R8X8_UNORM, 88);
    assert_eq!(DXGI_FORMAT_D24_UNORM_S8_UINT, 45);
}

#[test]
fn display_mode_formats_translate_to_two_canonical_formats() {
    for fmt in 0u32..=300 {
        if is_display_mode_format(fmt) {
            let modern = checked_d3d_display_format_to_dxgi(fmt);
            assert!(
                modern == Some(DXGI_FORMAT_B8G8R8A8_UNORM)
                    || modern == Some(DXGI_FORMAT_R10G10B10A2_UNORM),
                "format {}",
                fmt
            );
            assert_eq!(d3d_display_format_to_dxgi(fmt), modern.unwrap());
        }
    }
    assert_eq!(d3d_display_format_to_dxgi(D3DFMT_A8R8G8B8), 87);
    assert_eq!(d3d_display_format_to_dxgi(D3DFMT_X8R8G8B8), 87);
    assert_eq!(d3d_display_format_to_dxgi(D3DFMT_R5G6B5), 87);
    assert_eq!(d3d_display_format_to_dxgi(D3DFMT_A2R10G10B10), 24);
}

#[test]
fn display_mode_format_range() {
    let valid: Vec<u32> = (0u32..=300).filter(|f| is_display_mode_format(*f)).collect();
    assert_eq!(valid, vec![21, 22, 23, 24, 25, 35]);
    assert!(!is_display_mode_format(D3DFMT_R8G8B8));
    assert!(!is_display_mode_format(D3DFMT_UNKNOWN));
    assert!(!is_display_mode_format(D3DFMT_A4R4G4B4));
    assert!(!is_display_mode_format(u32::MAX));
}

#[test]
fn display_format_is_defined_on_a_wider_range() {
    assert_eq!(checked_d3d_display_format_to_dxgi(D3DFMT_UNKNOWN), Some(87));
    assert_eq!(checked_d3d_display_format_to_dxgi(D3DFMT_R8G8B8), Some(87));
    assert_eq!(checked_d3d_display_format_to_dxgi(D3DFMT_A4R4G4B4), None);
    assert_eq!(checked_d3d_display_format_to_dxgi(D3DFMT_A2B10G10R10), None);
    assert_eq!(checked_d3d_display_format_to_dxgi(D3DFMT_D24S8), None);
    assert_eq!(checked_d3d_display_format_to_dxgi(19), None);
}

#[test]
fn depth_stencil_format_range() {
    assert!(is_depth_stencil_format(D3DFMT_D16_LOCKABLE));
    assert!(is_depth_stencil_format(D3DFMT_D24S8));
    assert!(is_depth_stencil_format(D3DFMT_D16));
    assert!(is_depth_stencil_format(D3DFMT_S8_LOCKABLE));
    assert!(is_depth_stencil_format(D3DFMT_L16));
    assert!(!is_depth_stencil_format(69));
    assert!(!is_depth_stencil_format(86));
    assert!(!is_depth_stencil_format(D3DFMT_A8R8G8B8));
    assert!(!is_depth_stencil_format(D3DFMT_VERTEXDATA));
}

#[test]
fn general_formats_translate_by_the_table() {
    assert_eq!(d3d_format_to_dxgi(D3DFMT_A8), DXGI_FORMAT_A8_UNORM);
    assert_eq!(d3d_format_to_dxgi(D3DFMT_A8R8G8B8), DXGI_FORMAT_B8G8R8A8_UNORM);
    assert_eq!(d3d_format_to_dxgi(D3DFMT_X8R8G8B8), DXGI_FORMAT_B8G8R8X8_UNORM);
    assert_eq!(d3d_format_to_dxgi(D3DFMT_A8B8G8R8), DXGI_FORMAT_R8G8B8A8_UNORM);
    assert_eq!(d3d_format_to_dxgi(D3DFMT_X8B8G8R8), DXGI_FORMAT_R8G8B8A8_UNORM);
    assert_eq!(d3d_format_to_dxgi(D3DFMT_X4R4G4B4), DXGI_FORMAT_B4G4R4A4_UNORM);
    assert_eq!(d3d_format_to_dxgi(D3DFMT_A4R4G4B4), DXGI_FORMAT_B4G4R4A4_UNORM);
    assert_eq!(d3d_format_to_dxgi(D3DFMT_D24S8), DXGI_FORMAT_D24_UNORM_S8_UINT);
    assert_eq!(d3d_format_to_dxgi(D3DFMT_DXT1), DXGI_FORMAT_BC1_UNORM);
    assert_eq!(d3d_format_to_dxgi(D3DFMT_UNKNOWN), DXGI_FORMAT_UNKNOWN);
    assert_eq!(d3d_format_to_dxgi(D3DFMT_P8), DXGI_FORMAT_UNKNOWN);
    assert_eq!(d3d_format_to_dxgi(D3DFMT_R8G8B8), DXGI_FORMAT_UNKNOWN);
}

#[test]
fn formats_outside_the_table_have_no_translation() {
    assert_eq!(checked_d3d_format_to_dxgi(D3DFMT_VERTEXDATA), None);
    assert_eq!(checked_d3d_format_to_dxgi(D3DFMT_INDEX16), None);
    assert_eq!(checked_d3d_format_to_dxgi(1), None);
    assert_eq!(checked_d3d_format_to_dxgi(u32::MAX), None);
    assert_eq!(checked_d3d_format_to_dxgi(D3DFMT_A8R8G8B8), Some(87));
    assert_eq!(checked_dxgi_format_to_d3d(1), None);
    assert_eq!(checked_dxgi_format_to_d3d(200), None);
}

#[test]
fn the_way_back_picks_the_first_listed_format() {
    assert_eq!(dxgi_format_to_d3d(DXGI_FORMAT_B8G8R8A8_UNORM), D3DFMT_A8R8G8B8);
    assert_eq!(dxgi_format_to_d3d(DXGI_FORMAT_B8G8R8X8_UNORM), D3DFMT_X8R8G8B8);
    assert_eq!(dxgi_format_to_d3d(DXGI_FORMAT_R8G8B8A8_UNORM), D3DFMT_X8B8G8R8);
    assert_eq!(dxgi_format_to_d3d(DXGI_FORMAT_B4G4R4A4_UNORM), D3DFMT_X4R4G4B4);
    assert_eq!(dxgi_format_to_d3d(DXGI_FORMAT_R10G10B10A2_UNORM), D3DFMT_A2R10G10B10);
    assert_eq!(dxgi_format_to_d3d(DXGI_FORMAT_D24_UNORM_S8_UINT), D3DFMT_D24S8);
    assert_eq!(dxgi_format_to_d3d(DXGI_FORMAT_UNKNOWN), D3DFMT_UNKNOWN);
    assert_eq!(dxgi_format_to_d3d(DXGI_FORMAT_B8G8R8A8_UNORM), 21);
}

#[test]
fn the_way_back_is_lossy_but_equivalent() {
    for fmt in (0u32..=300).chain([D3DFMT_DXT1]) {
        if let Some(modern) = checked_d3d_format_to_dxgi(fmt) {
            let back = dxgi_format_to_d3d(modern);
            assert_eq!(d3d_format_to_dxgi(back), modern, "format {}", fmt);
        }
    }
    // Several legacy formats collapse onto one modern layout.
    assert_ne!(dxgi_format_to_d3d(d3d_format_to_dxgi(D3DFMT_A8B8G8R8)), D3DFMT_A8B8G8R8);
    assert_ne!(dxgi_format_to_d3d(d3d_format_to_dxgi(D3DFMT_A1R5G5B5)), D3DFMT_A1R5G5B5);
    assert_eq!(dxgi_format_to_d3d(d3d_format_to_dxgi(D3DFMT_A1R5G5B5)), D3DFMT_X1R5G5B5);
}

#[test]
fn format_extension_methods() {
    assert_eq!(D3DFMT_A8R8G8B8.to_dxgi(), DXGI_FORMAT_B8G8R8A8_UNORM);
    assert_eq!(D3DFMT_X8R8G8B8.to_dxgi(), DXGI_FORMAT_B8G8R8X8_UNORM);
    assert_eq!(D3DFMT_A8B8G8R8.to_dxgi(), DXGI_FORMAT_B8G8R8A8_UNORM);
    assert_eq!(D3DFMT_X8B8G8R8.to_dxgi(), DXGI_FORMAT_B8G8R8X8_UNORM);
    assert_eq!(D3DFMT_R8G8B8.to_dxgi(), DXGI_FORMAT_B8G8R8X8_UNORM);
    assert_eq!(D3DFMT_R3G3B2.to_dxgi(), DXGI_FORMAT_R8_UNORM);
    assert_eq!(D3DFMT_S8_LOCKABLE.to_dxgi(), DXGI_FORMAT_R8_UNORM);
    assert_eq!(D3DFMT_A2B10G10R10.to_dxgi(), DXGI_FORMAT_R10G10B10A2_UNORM);
    assert_eq!(D3DFMT_UNKNOWN.to_dxgi(), DXGI_FORMAT_UNKNOWN);
    assert_eq!(D3DFMT_DXT1.to_dxgi(), DXGI_FORMAT_BC1_UNORM);
    assert_eq!(D3DFMT_DXT1.checked_to_dxgi(), Some(71));
    assert_eq!(D3DFMT_VERTEXDATA.checked_to_dxgi(), None);
    assert_eq!(D3DFMT_P8.checked_to_dxgi(), None);
    assert_eq!(D3DFMT_R5G6B5.checked_to_dxgi(), Some(85));
    assert_eq!(D3DFMT_A8R8G8B8.to_dxgi_display_format(), 87);
    assert_eq!(D3DFMT_A2R10G10B10.to_dxgi_display_format(), 24);
    assert!(D3DFMT_A8R8G8B8.is_display_mode_format());
    assert!(!D3DFMT_R8G8B8.is_display_mode_format());
    assert!(D3DFMT_D24S8.is_depth_stencil_format());
    assert!(!D3DFMT_A8R8G8B8.is_depth_stencil_format());
}

#[test]
fn every_display_mode_format_is_a_resource_format() {
    for fmt in [21u32, 22, 23, 24, 25, 35] {
        assert!(fmt.is_display_mode_format());
        assert!(fmt.checked_to_dxgi().is_some());
    }
}

#[test]
fn compressed_and_signed_formats_are_resource_formats() {
    let dxt = |n: u8| u32::from_le_bytes([b'D', b'X', b'T', n]);
    assert_eq!(dxt(b'1'), D3DFMT_DXT1);
    assert_eq!(dxt(b'1').to_dxgi(), 71);
    assert_eq!(dxt(b'2').to_dxgi(), 74);
    assert_eq!(dxt(b'3').to_dxgi(), 77);
    assert_eq!(dxt(b'4').to_dxgi(), 80);
    assert_eq!(dxt(b'5').to_dxgi(), 83);
    assert_eq!(dxt(b'6').checked_to_dxgi(), None);
    // The general table agrees.
    for n in [b'1', b'2', b'3', b'4', b'5'] {
        assert_eq!(dxt(n).checked_to_dxgi(), checked_d3d_format_to_dxgi(dxt(n)));
    }
    // Signed formats, luminance with alpha.
    assert_eq!(60u32.to_dxgi(), 51);
    assert_eq!(63u32.to_dxgi(), 31);
    assert_eq!(64u32.to_dxgi(), 37);
    assert_eq!(51u32.to_dxgi(), 49);
    for fmt in [51u32, 60, 63, 64] {
        assert_eq!(fmt.checked_to_dxgi(), checked_d3d_format_to_dxgi(fmt));
    }
}
