use std::rc::Rc;

use d3d9_to_11::abi::d3d9::{
    CreationParameters, DisplayMode, Rect, D3DFMT_A8R8G8B8, D3DFMT_D24S8, D3DFMT_DXT1,
    D3DFMT_R8G8B8, D3DFMT_X8R8G8B8, D3DRTYPE_CUBETEXTURE, D3DRTYPE_INDEXBUFFER,
    D3DRTYPE_SURFACE, D3DRTYPE_TEXTURE, D3DRTYPE_VERTEXBUFFER, D3DRTYPE_VOLUME,
    D3DRTYPE_VOLUMETEXTURE, D3DUSAGE_AUTOGENMIPMAP, D3DUSAGE_DEPTHSTENCIL, D3DUSAGE_DYNAMIC,
    D3DUSAGE_RENDERTARGET,
};
use d3d9_to_11::abi::dxgi::{AdapterDesc, ModeDesc, OutputDesc, Rational};
use d3d9_to_11::base::adapter::{device_caps, AdapterNotes};
use d3d9_to_11::base::str::str_to_wstring;
use d3d9_to_11::base::{Adapter, Context};
use d3d9_to_11::entry::{extended_interface, is_known_sdk_version};
use d3d9_to_11::Error;

fn adapter(index: u32) -> Adapter {
    Adapter::new(index, 0xA0 + index as usize, 0, 0x0F, OutputDesc { monitor: 0x30 }, 0x11, 0xB000).0
}

fn headless(index: u32) -> Adapter {
    Adapter::new(index, 0xA0, -2005270526, 0, OutputDesc { monitor: 0x30 }, 0x12, 0xB000).0
}

fn mode(width: u32, height: u32, numerator: u32, denominator: u32) -> ModeDesc {
    ModeDesc {
        width,
        height,
        refresh_rate: Rational { numerator, denominator },
        format: 87,
        scanline_ordering: 0,
        scaling: 0,
    }
}

fn new_context() -> Rc<Context> {
    Rc::new(Context::new(0xFA, vec![adapter(0)]))
}

#[test]
fn context_lifetime() {
    let ctx = new_context();

    let original_count = ctx.get_adapter_count();
    assert!(original_count > 0, "No GPUs found on the system.");

    let copy = ctx.clone();

    std::mem::drop(ctx);

    let count = copy.get_adapter_count();

    assert_eq!(original_count, count);
}

#[test]
fn adapters_are_looked_at() {
    let (found, notes) =
        Adapter::new(2, 0xA2, 0, 0x0F, OutputDesc { monitor: 0x30 }, 0x11, 0xB000);
    assert_eq!(notes, AdapterNotes { no_output: false, limited_features: false });
    assert_eq!(found.index(), 2);
    assert_eq!(found.device(), 0x11);
    assert_eq!(found.monitor(), 0x30);

    let (found, notes) =
        Adapter::new(0, 0xA2, -2005270526, 0x0F, OutputDesc { monitor: 0x30 }, 0x11, 0xA100);
    assert_eq!(notes, AdapterNotes { no_output: true, limited_features: true });
    assert_eq!(found.monitor(), 0);

    let (_, notes) = Adapter::new(0, 0xA2, 0, 0x0F, OutputDesc { monitor: 0x30 }, 0x11, 0xB100);
    assert!(!notes.limited_features);
    let (_, notes) = Adapter::new(0, 0xA2, 0, 0x0F, OutputDesc { monitor: 0x30 }, 0x11, 0xAFFF);
    assert!(notes.limited_features);
}

#[test]
fn adapter_identifies_itself() {
    let mut description = str_to_wstring("Radeon \u{1F600} Pro");
    description.resize(128, 0);
    let desc = AdapterDesc {
        description,
        vendor_id: 0x1002,
        device_id: 0x67DF,
        sub_sys_id: 0x0B37_1002,
        revision: 0xC7,
    };
    let id = adapter(0).identifier(&desc);
    assert_eq!(id.driver, "D3D 9-to-11 Driver");
    assert_eq!(id.description, "Radeon \u{1F600} Pro (D3D 9-to-11 Device)");
    assert_eq!(id.device_name, "DISPLAY0");
    assert_eq!(id.driver_version, 1);
    assert_eq!(id.vendor_id, 0x1002);
    assert_eq!(id.device_id, 0x67DF);
    assert_eq!(id.sub_sys_id, 0x0B37_1002);
    assert_eq!(id.revision, 0xC7);
    assert_eq!(id.whql_level, 1);

    for (index, name) in [
        (1u32, "DISPLAY1"),
        (9, "DISPLAY9"),
        (10, "DISPLAY10"),
        (907, "DISPLAY907"),
        (u32::MAX, "DISPLAY4294967295"),
    ] {
        assert_eq!(adapter(index).identifier(&desc).device_name, name);
        assert_eq!(adapter(index).identifier(&desc).device_name, format!("DISPLAY{}", index));
    }
}

#[test]
fn display_modes_are_cached_and_listed() {
    let mut found = adapter(0);
    // Display modes are listed for display mode formats only.
    assert_eq!(found.uncached_mode_list(D3DFMT_X8R8G8B8), Some(88));
    assert_eq!(found.uncached_mode_list(D3DFMT_A8R8G8B8), Some(87));
    assert_eq!(found.uncached_mode_list(35), Some(24));
    assert_eq!(found.uncached_mode_list(D3DFMT_R8G8B8), None);
    assert_eq!(found.uncached_mode_list(D3DFMT_D24S8), None);
    assert_eq!(found.mode_count(D3DFMT_X8R8G8B8), 0);
    assert_eq!(found.mode(D3DFMT_X8R8G8B8, 0), None);

    let modes = vec![mode(640, 480, 60, 1), mode(800, 600, 60000, 1001), mode(1024, 768, 75, 0)];
    found.cache_display_modes(D3DFMT_X8R8G8B8, modes);
    assert_eq!(found.uncached_mode_list(D3DFMT_X8R8G8B8), None);
    assert_eq!(found.mode_count(D3DFMT_X8R8G8B8), 3);
    assert_eq!(
        found.mode(D3DFMT_X8R8G8B8, 0),
        Some(DisplayMode { width: 640, height: 480, refresh_rate: 60, format: 22 })
    );
    assert_eq!(
        found.mode(D3DFMT_X8R8G8B8, 1),
        Some(DisplayMode { width: 800, height: 600, refresh_rate: 59, format: 22 })
    );
    assert_eq!(
        found.mode(D3DFMT_X8R8G8B8, 2),
        Some(DisplayMode { width: 1024, height: 768, refresh_rate: 0, format: 22 })
    );
    assert_eq!(found.mode(D3DFMT_X8R8G8B8, 3), None);
    assert_eq!(found.mode(D3DFMT_X8R8G8B8, u32::MAX), None);

    // What is cached stays.
    found.cache_display_modes(D3DFMT_X8R8G8B8, vec![]);
    assert_eq!(found.mode_count(D3DFMT_X8R8G8B8), 3);
    // Other formats have their own list, and an empty list is a list.
    assert_eq!(found.mode_count(D3DFMT_A8R8G8B8), 0);
    found.cache_display_modes(D3DFMT_A8R8G8B8, vec![]);
    assert_eq!(found.uncached_mode_list(D3DFMT_A8R8G8B8), None);
    assert_eq!(found.mode_count(D3DFMT_A8R8G8B8), 0);
    // Modes of other formats are never reported.
    found.cache_display_modes(D3DFMT_D24S8, vec![mode(1, 1, 1, 1)]);
    assert_eq!(found.mode_count(D3DFMT_D24S8), 0);
    assert_eq!(found.mode(D3DFMT_D24S8, 0), None);
}

#[test]
fn an_adapter_without_output_has_no_modes() {
    let mut found = headless(0);
    assert_eq!(found.uncached_mode_list(D3DFMT_X8R8G8B8), None);
    found.cache_display_modes(D3DFMT_X8R8G8B8, vec![mode(640, 480, 60, 1)]);
    assert_eq!(found.mode_count(D3DFMT_X8R8G8B8), 0);
    assert_eq!(found.mode(D3DFMT_X8R8G8B8, 0), None);
}

#[test]
fn format_support_is_checked_by_kind_and_usage() {
    let found = adapter(0);
    let texture2d = 0x20;
    let texture3d = 0x40;
    let cube = 0x80;
    let vertex = 0x2;
    let index = 0x4;
    let mips = 0x2000;
    let target = 0x4000;
    let depth = 0x1_0000;

    assert!(found.is_format_supported(D3DRTYPE_TEXTURE, 0, 0, texture2d));
    assert!(found.is_format_supported(D3DRTYPE_SURFACE, 0, 0, texture2d));
    assert!(!found.is_format_supported(D3DRTYPE_TEXTURE, 0, 0, texture3d | cube));
    assert!(found.is_format_supported(D3DRTYPE_VOLUME, 0, 0, texture3d));
    assert!(found.is_format_supported(D3DRTYPE_VOLUMETEXTURE, 0, 0, texture3d));
    assert!(!found.is_format_supported(D3DRTYPE_VOLUMETEXTURE, 0, 0, texture2d));
    assert!(found.is_format_supported(D3DRTYPE_CUBETEXTURE, 0, 0, cube));
    assert!(!found.is_format_supported(D3DRTYPE_CUBETEXTURE, 0, 0, texture2d));
    assert!(found.is_format_supported(D3DRTYPE_VERTEXBUFFER, 0, 0, vertex));
    assert!(!found.is_format_supported(D3DRTYPE_VERTEXBUFFER, 0, 0, index));
    assert!(found.is_format_supported(D3DRTYPE_INDEXBUFFER, 0, 0, index));
    assert!(!found.is_format_supported(D3DRTYPE_INDEXBUFFER, 0, 0, vertex));
    // A number that names no kind of resource needs nothing.
    assert!(found.is_format_supported(0, 0, 0, 0));
    assert!(found.is_format_supported(99, 0, 0, 0));

    assert!(found.is_format_supported(D3DRTYPE_TEXTURE, D3DUSAGE_RENDERTARGET, 0, texture2d | target));
    assert!(!found.is_format_supported(D3DRTYPE_TEXTURE, D3DUSAGE_RENDERTARGET, 0, texture2d));
    assert!(found.is_format_supported(D3DRTYPE_TEXTURE, D3DUSAGE_DEPTHSTENCIL, 0, texture2d | depth));
    assert!(!found.is_format_supported(D3DRTYPE_TEXTURE, D3DUSAGE_DEPTHSTENCIL, 0, texture2d | target));
    assert!(found.is_format_supported(D3DRTYPE_TEXTURE, D3DUSAGE_AUTOGENMIPMAP, 0, texture2d | mips));
    assert!(!found.is_format_supported(D3DRTYPE_TEXTURE, D3DUSAGE_AUTOGENMIPMAP, 0, texture2d));
    assert!(found.is_format_supported(D3DRTYPE_TEXTURE, D3DUSAGE_DYNAMIC, 0, texture2d));
    assert!(!found.is_format_supported(
        D3DRTYPE_TEXTURE,
        D3DUSAGE_RENDERTARGET | D3DUSAGE_AUTOGENMIPMAP,
        0,
        texture2d | target
    ));

    // A device that cannot tell supports nothing.
    assert!(!found.is_format_supported(D3DRTYPE_TEXTURE, 0, -1, u32::MAX));
    assert!(!found.is_format_supported(0, 0, 1, u32::MAX));
}

#[test]
fn capabilities_are_a_superset() {
    let caps = adapter(3).caps();
    assert_eq!(caps, device_caps(3));
    assert_eq!(caps.device_type, 1);
    assert_eq!(caps.adapter_ordinal, 3);
    assert_eq!(caps.master_adapter_ordinal, 3);
    assert_eq!(caps.adapter_ordinal_in_group, 0);
    assert_eq!(caps.number_of_adapters_in_group, 1);
    assert_eq!(caps.caps, 0);
    assert_eq!(caps.caps2, 0x4000_0000 | 0x0010_0000 | 0x0002_0000 | 0x1000_0000 | 0x2000_0000);
    assert_eq!(caps.caps3, 0x20 | 0x100 | 0x200 | 0x80);
    assert_eq!(caps.texture_caps, !0x0020_0000);
    for word in [
        caps.presentation_intervals,
        caps.cursor_caps,
        caps.dev_caps,
        caps.primitive_misc_caps,
        caps.raster_caps,
        caps.z_cmp_caps,
        caps.src_blend_caps,
        caps.dest_blend_caps,
        caps.alpha_cmp_caps,
        caps.shade_caps,
        caps.texture_filter_caps,
        caps.cube_texture_filter_caps,
        caps.volume_texture_filter_caps,
        caps.texture_address_caps,
        caps.volume_texture_address_caps,
        caps.line_caps,
        caps.stencil_caps,
        caps.fvf_caps,
        caps.texture_op_caps,
        caps.vertex_processing_caps,
        caps.dev_caps2,
        caps.decl_types,
        caps.stretch_rect_filter_caps,
        caps.vertex_texture_filter_caps,
        caps.max_vshader_instructions_executed,
        caps.max_pshader_instructions_executed,
        caps.max_simultaneous_textures,
        caps.max_texture_blend_stages,
        caps.max_active_lights,
        caps.max_user_clip_planes,
        caps.max_primitive_count,
        caps.max_vertex_index,
        caps.max_vertex_blend_matrices,
        caps.max_vertex_blend_matrix_index,
    ] {
        assert_eq!(word, u32::MAX);
    }
    assert_eq!(caps.max_texture_width, 16384);
    assert_eq!(caps.max_texture_height, 16384);
    assert_eq!(caps.max_volume_extent, 2048);
    assert_eq!(caps.max_texture_repeat, 8192);
    assert_eq!(caps.max_texture_aspect_ratio, 16384);
    assert_eq!(caps.max_anisotropy, 16);
    assert_eq!(caps.num_simultaneous_rts, 8);
    assert_eq!(caps.max_streams, 16);
    assert_eq!(caps.max_stream_stride, 1 << 31);
    assert_eq!(caps.vertex_shader_version, 0xFFFE_0000 | (3 << 8));
    assert_eq!(caps.pixel_shader_version, 0xFFFF_0000 | (3 << 8));
    assert_eq!(caps.max_vertex_shader_const, 1 << 16);
    assert_eq!(caps.max_vertex_shader_30_instruction_slots, 32768);
    assert_eq!(caps.max_pixel_shader_30_instruction_slots, 32768);
    assert_eq!(caps.reserved5, 0);
    assert_eq!(f32::from_bits(caps.max_vertex_w), f32::MAX);
    assert_eq!(f32::from_bits(caps.max_point_size), f32::MAX);
    assert_eq!(f32::from_bits(caps.guard_band_left), 0.0);
    assert_eq!(f32::from_bits(caps.guard_band_top), 0.0);
    assert_eq!(f32::from_bits(caps.guard_band_right), 0.0);
    assert_eq!(f32::from_bits(caps.guard_band_bottom), 0.0);
    assert_eq!(f32::from_bits(caps.extents_adjust), 0.0);
    assert_eq!(f32::from_bits(caps.pixel_shader_1x_max_value), 8.0);
    assert_eq!(f32::from_bits(caps.max_npatch_tessellation_level), 256.0);
    assert_eq!(caps.vs20_caps.caps, u32::MAX);
    assert_eq!(caps.vs20_caps.dynamic_flow_control_depth, 24);
    assert_eq!(caps.vs20_caps.num_temps, 16384);
    assert_eq!(caps.vs20_caps.static_flow_control_depth, i32::MIN);
    assert_eq!(caps.ps20_caps.caps, u32::MAX);
    assert_eq!(caps.ps20_caps.dynamic_flow_control_depth, 24);
    assert_eq!(caps.ps20_caps.num_temps, !16384);
    assert_eq!(caps.ps20_caps.static_flow_control_depth, i32::MIN);
    assert_eq!(caps.ps20_caps.num_instruction_slots, i32::MIN);
}

fn context() -> Context {
    Context::new(0xFA, vec![adapter(0), headless(1)])
}

#[test]
fn requests_are_checked_for_adapter_and_device_kind() {
    let ctx = context();
    assert_eq!(ctx.get_adapter_count(), 2);
    let hal = 1;
    for (adapter, ty, expected) in [
        (0u32, hal, Error::Success),
        (1, hal, Error::Success),
        (2, hal, Error::InvalidCall),
        (u32::MAX, hal, Error::InvalidCall),
        (0, 2, Error::InvalidCall),
        (0, 3, Error::InvalidCall),
        (0, 0, Error::InvalidCall),
    ] {
        assert_eq!(ctx.check_device_format_conversion(adapter, ty, 21, 22), expected);
        assert_eq!(ctx.check_device_type(adapter, ty, D3DFMT_X8R8G8B8, 21, 1), expected);
        assert_eq!(ctx.check_depth_stencil_match(adapter, ty, 22, 21, D3DFMT_D24S8), expected);
        assert_eq!(ctx.get_device_caps(adapter, ty).is_ok(), expected == Error::Success);
        assert_eq!(
            ctx.check_device_format(adapter, ty, 22, 0, D3DRTYPE_TEXTURE, 21).is_ok(),
            expected == Error::Success
        );
    }
    assert_eq!(ctx.get_device_caps(2, hal), Err(Error::InvalidCall));
    assert_eq!(ctx.get_device_caps(1, hal), Ok(device_caps(1)));
}

#[test]
fn formats_are_checked() {
    let ctx = context();
    assert_eq!(ctx.check_device_type(0, 1, D3DFMT_X8R8G8B8, 0, 0), Error::Success);
    assert_eq!(ctx.check_device_type(0, 1, 35, 0, 0), Error::Success);
    assert_eq!(ctx.check_device_type(0, 1, D3DFMT_R8G8B8, 0, 0), Error::NotAvailable);
    assert_eq!(ctx.check_device_type(0, 1, D3DFMT_D24S8, 0, 0), Error::NotAvailable);

    assert_eq!(ctx.check_depth_stencil_match(0, 1, 22, 21, D3DFMT_D24S8), Error::Success);
    assert_eq!(ctx.check_depth_stencil_match(0, 1, 22, 21, 70), Error::Success);
    assert_eq!(ctx.check_depth_stencil_match(0, 1, 22, 21, 85), Error::Success);
    assert_eq!(ctx.check_depth_stencil_match(0, 1, 22, 21, 21), Error::NotAvailable);
    assert_eq!(ctx.check_depth_stencil_match(0, 1, 22, 21, 86), Error::NotAvailable);

    assert_eq!(ctx.check_device_format(0, 1, 22, 0, D3DRTYPE_TEXTURE, D3DFMT_A8R8G8B8), Ok(87));
    assert_eq!(ctx.check_device_format(0, 1, 22, 0, D3DRTYPE_TEXTURE, D3DFMT_DXT1), Ok(71));
    assert_eq!(
        ctx.check_device_format(0, 1, 22, 0, D3DRTYPE_TEXTURE, 41),
        Err(Error::NotAvailable)
    );
    assert_eq!(ctx.device_format_checked(0, 0, D3DRTYPE_TEXTURE, 0, 0x20), Error::Success);
    assert_eq!(ctx.device_format_checked(0, 0, D3DRTYPE_TEXTURE, 0, 0x40), Error::NotAvailable);
    assert_eq!(ctx.device_format_checked(0, 0, D3DRTYPE_TEXTURE, -1, 0x20), Error::NotAvailable);
    assert_eq!(ctx.device_format_checked(2, 0, D3DRTYPE_TEXTURE, 0, 0x20), Error::InvalidCall);

    assert_eq!(ctx.check_device_multi_sample_type(0, 1, D3DFMT_A8R8G8B8, 1, 4), Ok(87));
    assert_eq!(ctx.check_device_multi_sample_type(0, 1, 1, 1, 4), Err(Error::NotAvailable));
    assert_eq!(ctx.check_device_multi_sample_type(5, 1, 21, 1, 4), Err(Error::InvalidCall));
    assert_eq!(Context::device_multi_sample_type_checked(0), Error::NotAvailable);
    assert_eq!(Context::device_multi_sample_type_checked(1), Error::Success);
    assert_eq!(Context::device_multi_sample_type_checked(u32::MAX), Error::Success);
}

#[test]
fn adapters_are_described_through_the_context() {
    let mut ctx = context();
    let desc = AdapterDesc {
        description: str_to_wstring("Adapter"),
        vendor_id: 1,
        device_id: 2,
        sub_sys_id: 3,
        revision: 4,
    };
    let id = ctx.get_adapter_identifier(1, 0, &desc).unwrap();
    assert_eq!(id.description, "Adapter (D3D 9-to-11 Device)");
    assert_eq!(id.device_name, "DISPLAY1");
    assert_eq!(ctx.get_adapter_identifier(2, 0, &desc), Err(Error::InvalidCall));

    assert_eq!(ctx.get_adapter_monitor(0), 0x30);
    assert_eq!(ctx.get_adapter_monitor(1), 0);
    assert_eq!(ctx.get_adapter_monitor(2), 0);

    assert_eq!(ctx.get_adapter_mode_count(0, 22), 0);
    ctx.cache_display_modes(0, 22, vec![mode(640, 480, 60, 1), mode(800, 600, 120, 2)]);
    ctx.cache_display_modes(1, 22, vec![mode(640, 480, 60, 1)]);
    ctx.cache_display_modes(9, 22, vec![mode(640, 480, 60, 1)]);
    assert_eq!(ctx.get_adapter_mode_count(0, 22), 2);
    assert_eq!(ctx.get_adapter_mode_count(0, 21), 0);
    assert_eq!(ctx.get_adapter_mode_count(1, 22), 0);
    assert_eq!(ctx.get_adapter_mode_count(2, 22), 0);
    assert_eq!(
        ctx.enum_adapter_modes(0, 22, 1),
        Ok(DisplayMode { width: 800, height: 600, refresh_rate: 60, format: 22 })
    );
    assert_eq!(ctx.enum_adapter_modes(0, 22, 2), Err(Error::NotAvailable));
    assert_eq!(ctx.enum_adapter_modes(0, 20, 0), Err(Error::NotAvailable));
    assert_eq!(ctx.enum_adapter_modes(1, 22, 0), Err(Error::NotAvailable));
    assert_eq!(ctx.enum_adapter_modes(2, 22, 0), Err(Error::InvalidCall));

    assert_eq!(
        ctx.get_adapter_display_mode(Rect { left: 0, top: 0, right: 1920, bottom: 1080 }),
        DisplayMode { width: 1920, height: 1080, refresh_rate: 0, format: D3DFMT_X8R8G8B8 }
    );
    assert_eq!(
        ctx.get_adapter_display_mode(Rect { left: -1920, top: 0, right: 0, bottom: 1200 }),
        DisplayMode { width: 1920, height: 1200, refresh_rate: 0, format: 22 }
    );
}

#[test]
fn devices_are_created_on_hardware_adapters() {
    let ctx = context();
    let pp = d3d9_to_11::abi::d3d9::PresentParameters {
        back_buffer_width: 0,
        back_buffer_height: 0,
        back_buffer_format: 0,
        back_buffer_count: 1,
        multi_sample_type: 0,
        multi_sample_quality: 0,
        swap_effect: 1,
        device_window: 7,
        windowed: 1,
        enable_auto_depth_stencil: 0,
        auto_depth_stencil_format: 0,
        flags: 0,
        full_screen_refresh_rate_in_hz: 0,
        presentation_interval: 0,
    };
    assert_eq!(
        ctx.create_device(1, 1, 0x77, 4, &pp),
        Ok((
            0x12,
            CreationParameters {
                adapter_ordinal: 1,
                device_type: 1,
                focus_window: 0x77,
                behavior_flags: 4
            },
            false
        ))
    );
    let (_, cp, multi_adapter) = ctx.create_device(0, 1, 0, 0x200 | 0x40, &pp).unwrap();
    assert!(multi_adapter);
    assert_eq!(cp.behavior_flags, 0x240);
    assert_eq!(ctx.create_device(2, 1, 0x77, 4, &pp), Err(Error::InvalidCall));
    assert_eq!(ctx.create_device(0, 2, 0x77, 4, &pp), Err(Error::InvalidCall));
}

#[test]
fn context_names_what_to_ask_the_platform() {
    let mut ctx = context();
    assert_eq!(ctx.get_adapter_handle(0), Ok(0xA0));
    assert_eq!(ctx.get_adapter_handle(2), Err(Error::InvalidCall));
    assert_eq!(ctx.get_adapter_device(0), Ok(0x11));
    assert_eq!(ctx.get_adapter_device(1), Ok(0x12));
    assert_eq!(ctx.get_adapter_device(2), Err(Error::InvalidCall));
    assert_eq!(adapter(0).handle(), 0xA0);
    assert_eq!(adapter(0).output(), Some(0x0F));
    assert_eq!(headless(0).output(), None);

    assert_eq!(ctx.uncached_mode_list(0, D3DFMT_X8R8G8B8), Some((0x0F, 88)));
    assert_eq!(ctx.uncached_mode_list(0, D3DFMT_A8R8G8B8), Some((0x0F, 87)));
    assert_eq!(ctx.uncached_mode_list(0, D3DFMT_D24S8), None);
    assert_eq!(ctx.uncached_mode_list(1, D3DFMT_X8R8G8B8), None);
    assert_eq!(ctx.uncached_mode_list(2, D3DFMT_X8R8G8B8), None);
    ctx.cache_display_modes(0, D3DFMT_X8R8G8B8, vec![]);
    assert_eq!(ctx.uncached_mode_list(0, D3DFMT_X8R8G8B8), None);
    assert_eq!(ctx.uncached_mode_list(0, D3DFMT_A8R8G8B8), Some((0x0F, 87)));
}

// Ensures that some basic formats are supported.
#[test]
fn check_common_formats() {
    let ctx = context();
    let check_support = |fmt: u32| {
        let format = ctx.check_device_format(0, 1, D3DFMT_A8R8G8B8, 0, D3DRTYPE_TEXTURE, fmt);
        assert!(format.is_ok(), "Format is not supported: {}", fmt);
        // A device that can make textures of the format.
        let result = ctx.device_format_checked(0, 0, D3DRTYPE_TEXTURE, 0, 0x20);
        assert_eq!(result.code(), 0, "Format is not supported: {}", fmt);
    };

    check_support(32);
    check_support(113);
    check_support(D3DFMT_DXT1);
}

#[test]
fn software_devices_are_accepted_and_ignored() {
    let ctx = context();
    assert_eq!(ctx.register_software_device(0), Error::InvalidCall);
    assert_eq!(ctx.register_software_device(0x4000), Error::Success);
}

#[test]
fn entry_points() {
    assert!(is_known_sdk_version(32));
    assert!(!is_known_sdk_version(31));
    assert!(!is_known_sdk_version(0));
    assert_eq!(extended_interface(), Error::NotAvailable);
}
