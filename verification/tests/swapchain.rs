use d3d9_to_11::abi::d3d11::{MappedSubresource, Texture2dDesc};
use d3d9_to_11::abi::d3d9::{
    DisplayMode, LockedRect, PresentParameters, Rect, D3DFMT_A2R10G10B10, D3DFMT_A8R8G8B8,
    D3DFMT_D24S8, D3DFMT_R5G6B5, D3DFMT_UNKNOWN, D3DFMT_X8R8G8B8, D3DSWAPEFFECT_COPY,
    D3DSWAPEFFECT_DISCARD, D3DSWAPEFFECT_FLIP,
};
use d3d9_to_11::abi::dxgi::{
    ModeDesc, Rational, SampleDesc, SwapChainDesc, DXGI_ERROR_WAS_STILL_DRAWING,
};
use d3d9_to_11::base::enums::{LockFlags, MemoryPool, UsageFlags};
use d3d9_to_11::d3d11::{DeviceContext, MapRequest, Texture2D, UnmapRequest};
use d3d9_to_11::dev::swapchain::{PresentRequest, SwapChainNotes};
use d3d9_to_11::dev::{CubeTexture, Surface, SurfaceData, SwapChain, Texture};
use d3d9_to_11::Error;

fn parameters() -> PresentParameters {
    PresentParameters {
        back_buffer_width: 0,
        back_buffer_height: 0,
        back_buffer_format: D3DFMT_UNKNOWN,
        back_buffer_count: 1,
        multi_sample_type: 0,
        multi_sample_quality: 0,
        swap_effect: D3DSWAPEFFECT_DISCARD,
        device_window: 7,
        windowed: 1,
        enable_auto_depth_stencil: 1,
        auto_depth_stencil_format: D3DFMT_D24S8,
        flags: 0,
        full_screen_refresh_rate_in_hz: 0,
        presentation_interval: 1,
    }
}

const CLIENT: Rect = Rect { left: 0, top: 0, right: 800, bottom: 600 };

const QUIET: SwapChainNotes = SwapChainNotes {
    multisampling_disabled: false,
    back_buffers_limited: false,
    swap_effect_replaced: false,
    flags_ignored: false,
};

#[test]
fn swap_chain_resolves_what_was_left_open() {
    let mut pp = parameters();
    let (desc, notes) = SwapChain::describe(&mut pp, 7, CLIENT).unwrap();
    assert_eq!(
        desc,
        SwapChainDesc {
            buffer_desc: ModeDesc {
                width: 800,
                height: 600,
                refresh_rate: Rational { numerator: 0, denominator: 1 },
                format: 87,
                scanline_ordering: 0,
                scaling: 0,
            },
            sample_desc: SampleDesc { count: 1, quality: 0 },
            buffer_usage: 96,
            buffer_count: 1,
            output_window: 7,
            windowed: 1,
            swap_effect: 0,
            flags: 0,
        }
    );
    assert_eq!(notes, QUIET);
    let mut expected = parameters();
    expected.back_buffer_width = 800;
    expected.back_buffer_height = 600;
    expected.back_buffer_format = D3DFMT_A8R8G8B8;
    assert_eq!(pp, expected);
}

#[test]
fn swap_chain_keeps_what_was_asked_for() {
    let mut pp = parameters();
    pp.back_buffer_width = 1920;
    pp.back_buffer_height = 1080;
    pp.back_buffer_format = D3DFMT_A2R10G10B10;
    pp.back_buffer_count = 2;
    pp.multi_sample_type = 4;
    pp.multi_sample_quality = 3;
    pp.windowed = 0;
    pp.full_screen_refresh_rate_in_hz = 60;
    let asked = pp;
    let (desc, notes) = SwapChain::describe(&mut pp, 9, CLIENT).unwrap();
    assert_eq!((desc.buffer_desc.width, desc.buffer_desc.height), (1920, 1080));
    assert_eq!(desc.buffer_desc.format, 24);
    assert_eq!(desc.buffer_desc.refresh_rate, Rational { numerator: 60, denominator: 1 });
    assert_eq!(desc.sample_desc, SampleDesc { count: 4, quality: 3 });
    assert_eq!(desc.buffer_count, 2);
    assert_eq!(desc.output_window, 9);
    assert_eq!(desc.windowed, 0);
    assert_eq!(notes, QUIET);
    assert_eq!(pp, asked);
}

#[test]
fn swap_chain_collapses_display_formats() {
    for fmt in [D3DFMT_X8R8G8B8, D3DFMT_R5G6B5, D3DFMT_A8R8G8B8, 20, 25] {
        let mut pp = parameters();
        pp.back_buffer_format = fmt;
        let (desc, _) = SwapChain::describe(&mut pp, 7, CLIENT).unwrap();
        assert_eq!(desc.buffer_desc.format, 87);
        assert_eq!(pp.back_buffer_format, fmt);
    }
}

#[test]
fn full_screen_swap_chain_needs_its_size() {
    for (width, height) in [(0u32, 0u32), (0, 600), (800, 0)] {
        let mut pp = parameters();
        pp.windowed = 0;
        pp.back_buffer_width = width;
        pp.back_buffer_height = height;
        let before = pp;
        assert_eq!(SwapChain::describe(&mut pp, 7, CLIENT), Err(Error::InvalidCall));
        assert_eq!(pp, before);
    }
    // Either dimension left open takes both from the window.
    let mut pp = parameters();
    pp.back_buffer_width = 1024;
    let (desc, _) = SwapChain::describe(&mut pp, 7, CLIENT).unwrap();
    assert_eq!((desc.buffer_desc.width, desc.buffer_desc.height), (800, 600));
}

#[test]
fn swap_chain_needs_a_display_format() {
    for fmt in [D3DFMT_D24S8, 26, 31, 100, u32::MAX] {
        let mut pp = parameters();
        pp.back_buffer_format = fmt;
        let before = pp;
        assert_eq!(SwapChain::describe(&mut pp, 7, CLIENT), Err(Error::InvalidCall));
        assert_eq!(pp, before);
    }
}

#[test]
fn client_rectangle_gives_the_size() {
    let mut pp = parameters();
    let (desc, _) =
        SwapChain::describe(&mut pp, 7, Rect { left: -100, top: 50, right: 540, bottom: 530 })
            .unwrap();
    assert_eq!((desc.buffer_desc.width, desc.buffer_desc.height), (640, 480));
    let mut pp = parameters();
    let (desc, _) = SwapChain::describe(
        &mut pp,
        7,
        Rect { left: i32::MIN, top: 10, right: i32::MAX, bottom: 5 },
    )
    .unwrap();
    assert_eq!((desc.buffer_desc.width, desc.buffer_desc.height), (u32::MAX, 0xFFFF_FFFB));
}

#[test]
fn multisampling_needs_the_discard_swap_effect() {
    for (ty, count) in [(0u32, 1u32), (1, 1), (2, 2), (16, 16), (17, 16), (u32::MAX, 16)] {
        let mut pp = parameters();
        pp.multi_sample_type = ty;
        pp.multi_sample_quality = 5;
        let (desc, notes) = SwapChain::describe(&mut pp, 7, CLIENT).unwrap();
        assert_eq!(desc.sample_desc, SampleDesc { count, quality: 5 });
        assert!(!notes.multisampling_disabled);
    }
    for effect in [D3DSWAPEFFECT_FLIP, D3DSWAPEFFECT_COPY, 4, 5, 0] {
        let mut pp = parameters();
        pp.swap_effect = effect;
        pp.multi_sample_type = 8;
        let (desc, notes) = SwapChain::describe(&mut pp, 7, CLIENT).unwrap();
        assert_eq!(desc.sample_desc.count, 1);
        assert!(notes.multisampling_disabled);
        assert_eq!(notes.swap_effect_replaced, effect != D3DSWAPEFFECT_COPY);
        // Every swap effect falls back to discard.
        assert_eq!(desc.swap_effect, 0);
    }
    // Nothing is switched off where nothing was asked for.
    for ty in [0u32, 1] {
        let mut pp = parameters();
        pp.swap_effect = D3DSWAPEFFECT_FLIP;
        pp.multi_sample_type = ty;
        let (desc, notes) = SwapChain::describe(&mut pp, 7, CLIENT).unwrap();
        assert_eq!(desc.sample_desc.count, 1);
        assert!(!notes.multisampling_disabled);
        assert!(notes.swap_effect_replaced);
    }
}

#[test]
fn back_buffer_count_is_clamped() {
    for (asked, count) in [(0u32, 1u32), (1, 1), (2, 2), (3, 3), (4, 3), (u32::MAX, 3)] {
        let mut pp = parameters();
        pp.back_buffer_count = asked;
        let (desc, notes) = SwapChain::describe(&mut pp, 7, CLIENT).unwrap();
        assert_eq!(desc.buffer_count, count);
        assert_eq!(pp.back_buffer_count, asked);
        assert!(!notes.back_buffers_limited);
    }
    let mut pp = parameters();
    pp.swap_effect = D3DSWAPEFFECT_COPY;
    pp.back_buffer_count = 3;
    let (desc, notes) = SwapChain::describe(&mut pp, 7, CLIENT).unwrap();
    assert_eq!(desc.buffer_count, 1);
    assert_eq!(pp.back_buffer_count, 1);
    assert!(notes.back_buffers_limited);
    assert!(!notes.swap_effect_replaced);
    let mut pp = parameters();
    pp.swap_effect = D3DSWAPEFFECT_COPY;
    let (desc, notes) = SwapChain::describe(&mut pp, 7, CLIENT).unwrap();
    assert_eq!(desc.buffer_count, 1);
    assert!(!notes.back_buffers_limited);
}

#[test]
fn presentation_flags_are_ignored() {
    let mut pp = parameters();
    pp.flags = 2;
    let (desc, notes) = SwapChain::describe(&mut pp, 7, CLIENT).unwrap();
    assert_eq!(desc.flags, 0);
    assert!(notes.flags_ignored);
    assert_eq!(pp.flags, 2);
}

#[test]
fn swap_chain_interval_is_clamped() {
    for (interval, sync) in [(0u32, 0u32), (1, 1), (4, 4), (5, 4), (0x8000_0000, 4)] {
        let mut pp = parameters();
        pp.presentation_interval = interval;
        let chain = SwapChain::new(1, pp, 0, 2).unwrap();
        assert_eq!(chain.sync_interval, sync);
        assert_eq!(chain.get_present_parameters(), pp);
        assert_eq!(chain.get_device(), 1);
        assert_eq!(chain.swap_chain, 2);
    }
    assert_eq!(SwapChain::new(1, parameters(), -1, 2), Err(Error::DriverInternalError));
    assert_eq!(
        SwapChain::new(1, parameters(), DXGI_ERROR_WAS_STILL_DRAWING, 2),
        Err(Error::DriverInternalError)
    );
}

fn chain() -> SwapChain {
    let mut pp = parameters();
    pp.back_buffer_count = 2;
    SwapChain::describe(&mut pp, 7, CLIENT).unwrap();
    SwapChain::new(0xD0, pp, 0, 0x5C).unwrap()
}

#[test]
fn only_the_whole_surface_is_presented() {
    let chain = chain();
    assert_eq!(
        chain.present(0, 0, 0, 0, 0),
        Ok(PresentRequest {
            swap_chain: 0x5C,
            sync_interval: 1,
            flags: 0,
            linear_content_ignored: false
        })
    );
    assert_eq!(
        chain.present(0, 0, 0, 0, 1),
        Ok(PresentRequest {
            swap_chain: 0x5C,
            sync_interval: 1,
            flags: 8,
            linear_content_ignored: false
        })
    );
    assert_eq!(
        chain.present(0, 0, 0, 0, 3),
        Ok(PresentRequest {
            swap_chain: 0x5C,
            sync_interval: 1,
            flags: 8,
            linear_content_ignored: true
        })
    );
    assert_eq!(chain.present(1, 0, 0, 0, 0), Err(Error::NotAvailable));
    assert_eq!(chain.present(0, 1, 0, 0, 0), Err(Error::NotAvailable));
    assert_eq!(chain.present(0, 0, 0, 1, 0), Err(Error::NotAvailable));
    assert_eq!(chain.present(0, 0, 9, 0, 0), Err(Error::NotAvailable));
}

#[test]
fn a_refused_present_can_be_tried_again() {
    assert_eq!(SwapChain::presented(0), Error::Success);
    assert_eq!(SwapChain::presented(DXGI_ERROR_WAS_STILL_DRAWING), Error::WasStillDrawing);
    assert_eq!(SwapChain::presented(-2005270518), Error::WasStillDrawing);
    assert_eq!(SwapChain::presented(-2005270523), Error::DriverInternalError);
    assert_eq!(SwapChain::presented(1), Error::DriverInternalError);
}

#[test]
fn back_buffers_are_handed_out() {
    let chain = chain();
    assert_eq!(chain.get_back_buffer(0, 0), Error::Success);
    assert_eq!(chain.get_back_buffer(1, 0), Error::Success);
    assert_eq!(chain.get_back_buffer(2, 0), Error::InvalidCall);
    assert_eq!(chain.get_back_buffer(0, 1), Error::InvalidCall);
    assert_eq!(chain.get_back_buffer(0, 2), Error::InvalidCall);

    let desc = Texture2dDesc {
        width: 800,
        height: 600,
        mip_levels: 1,
        array_size: 1,
        format: 87,
        sample_desc: SampleDesc { count: 1, quality: 0 },
        usage: 0,
        bind_flags: 32,
        cpu_access_flags: 0,
        misc_flags: 0,
    };
    let buffer = chain.buffer(0, 0xBB, desc).unwrap();
    assert_eq!(buffer, Texture2D::from(0xBB, desc));
    assert_eq!(buffer.as_resource(), 0xBB);
    assert_eq!(buffer.desc(), desc);
    assert_eq!(chain.buffer(-1, 0xBB, desc), Err(Error::DriverInternalError));
    let surface = chain.back_buffer_surface(buffer);
    assert_eq!(surface.data, SurfaceData::Plain);
    assert_eq!(surface.resource.device(), 0xD0);
    assert_eq!(surface.subresource(), (0xBB, 0));
    assert_eq!(surface.get_container(), 0xD0);
    let described = surface.get_desc().unwrap();
    assert_eq!((described.width, described.height, described.format), (800, 600, 21));
    assert_eq!((described.ty, described.usage, described.pool), (1, 0, 0));
    assert_eq!((described.multi_sample_type, described.multi_sample_quality), (1, 0));
}

#[test]
fn swap_chain_accessors() {
    let chain = chain();
    assert_eq!(chain.get_raster_status(), Error::NotAvailable);
    assert_eq!(
        chain.get_display_mode(),
        DisplayMode { width: 800, height: 600, refresh_rate: 0, format: 21 }
    );
    let surface = chain.back_buffer_surface(Texture2D::from(
        1,
        Texture2dDesc {
            width: 1,
            height: 1,
            mip_levels: 1,
            array_size: 1,
            format: 87,
            sample_desc: SampleDesc { count: 1, quality: 0 },
            usage: 0,
            bind_flags: 0,
            cpu_access_flags: 0,
            misc_flags: 0,
        },
    ));
    assert_eq!(chain.get_front_buffer_data(&surface), Error::NotAvailable);
}

fn texture(usage: u32, pool: MemoryPool, levels: u32) -> Texture {
    let usage = UsageFlags::from_bits_truncate(usage);
    let desc = Texture2D::new((64, 32), levels, usage, D3DFMT_A8R8G8B8, pool).unwrap();
    let image = Texture2D::created(desc, 0, 0x7E).unwrap();
    Texture::new(0xD0, pool, image, levels, usage)
}

fn lock(bits: u32) -> LockFlags {
    LockFlags::from_bits_truncate(bits)
}

#[test]
fn discard_is_ignored_on_a_staging_surface() {
    let texture = texture(0, MemoryPool::SystemMem, 1);
    // The image is a staging one that the processor reads and writes.
    assert_eq!(texture.texture.desc.usage, 3);
    assert_eq!(texture.texture.desc.cpu_access_flags, 0x3_0000);
    let surface = texture.get_surface_level(0).unwrap();
    assert_eq!(
        surface.lock_rect(lock(LockFlags::DISCARD)),
        Ok(MapRequest { resource: 0x7E, subresource: 0, map_type: 3, map_flags: 0 })
    );
    assert_eq!(surface.unlock_rect(), UnmapRequest { resource: 0x7E, subresource: 0 });
}

#[test]
fn map_kind_follows_usage_and_flags() {
    let ctx = DeviceContext::new(1);
    let write_only = UsageFlags::from_bits_truncate(UsageFlags::WRITE_ONLY);
    let dynamic = UsageFlags::from_bits_truncate(UsageFlags::DYNAMIC);
    let kind = |flags: u32, usage: UsageFlags| ctx.map(5, 2, lock(flags), usage).map_type;
    assert_eq!(kind(0, write_only), 2);
    assert_eq!(kind(LockFlags::DISCARD, write_only), 4);
    assert_eq!(kind(LockFlags::NO_OVERWRITE, write_only), 5);
    assert_eq!(kind(LockFlags::NO_OVERWRITE | LockFlags::DISCARD, write_only), 5);
    assert_eq!(kind(LockFlags::READ_ONLY, write_only), 2);
    assert_eq!(kind(0, dynamic), 3);
    assert_eq!(kind(LockFlags::READ_ONLY, dynamic), 1);
    assert_eq!(kind(LockFlags::READ_ONLY | LockFlags::DISCARD, UsageFlags::empty()), 1);
    assert_eq!(kind(LockFlags::NO_OVERWRITE, UsageFlags::empty()), 3);

    let request = ctx.map(5, 2, lock(LockFlags::DO_NOT_WAIT), write_only);
    assert_eq!(
        request,
        MapRequest { resource: 5, subresource: 2, map_type: 2, map_flags: 0x10_0000 }
    );
    assert_eq!(ctx.map(5, 2, lock(LockFlags::NO_DIRTY_UPDATE), write_only).map_flags, 0);
    assert_eq!(ctx.unmap(5, 2), UnmapRequest { resource: 5, subresource: 2 });
}

#[test]
fn a_refused_map_can_be_tried_again() {
    let mapped = MappedSubresource { data: 0x1000, row_pitch: 256, depth_pitch: 8192 };
    assert_eq!(DeviceContext::mapped(0, mapped), Ok(LockedRect { pitch: 256, bits: 0x1000 }));
    assert_eq!(
        DeviceContext::mapped(DXGI_ERROR_WAS_STILL_DRAWING, mapped),
        Err(Error::WasStillDrawing)
    );
    assert_eq!(DeviceContext::mapped(-2147024809, mapped), Err(Error::DriverInternalError));
    assert_eq!(DeviceContext::mapped(1, mapped), Err(Error::DriverInternalError));
    let wide = MappedSubresource { data: 8, row_pitch: 0x8000_0000, depth_pitch: 0 };
    assert_eq!(DeviceContext::mapped(0, wide), Ok(LockedRect { pitch: i32::MIN, bits: 8 }));
    let wide = MappedSubresource { data: 8, row_pitch: u32::MAX, depth_pitch: 0 };
    assert_eq!(DeviceContext::mapped(0, wide), Ok(LockedRect { pitch: -1, bits: 8 }));
    let wide = MappedSubresource { data: 8, row_pitch: 0x7FFF_FFFF, depth_pitch: 0 };
    assert_eq!(DeviceContext::mapped(0, wide), Ok(LockedRect { pitch: i32::MAX, bits: 8 }));
}

#[test]
fn discard_is_ignored_on_a_plain_surface() {
    // An off-screen surface in system memory, without dynamic or write-only usage.
    let desc =
        Texture2D::new((16, 16), 1, UsageFlags::empty(), D3DFMT_A8R8G8B8, MemoryPool::SystemMem)
            .unwrap();
    assert_eq!((desc.usage, desc.cpu_access_flags), (3, 0x3_0000));
    let image = Texture2D::created(desc, 0, 0x7F).unwrap();
    let surface =
        Surface::new(1, image, 0, UsageFlags::empty(), MemoryPool::SystemMem, SurfaceData::Plain);
    let request = surface.lock_rect(lock(LockFlags::DISCARD)).unwrap();
    assert_eq!(request, MapRequest { resource: 0x7F, subresource: 0, map_type: 3, map_flags: 0 });
    // The same as without the flag.
    assert_eq!(surface.lock_rect(lock(0)), Ok(request));
    assert_eq!(
        surface.lock_rect(lock(LockFlags::DISCARD | LockFlags::NO_OVERWRITE)),
        Ok(request)
    );
    assert_eq!(surface.lock_rect(lock(LockFlags::READ_ONLY)).unwrap().map_type, 1);
    assert_eq!(surface.lock_rect(lock(LockFlags::DO_NOT_WAIT)).unwrap().map_flags, 0x10_0000);
    // What the platform maps is what the caller gets.
    let mapped = MappedSubresource { data: 0x4000, row_pitch: 64, depth_pitch: 1024 };
    assert_eq!(DeviceContext::mapped(0, mapped), Ok(LockedRect { pitch: 64, bits: 0x4000 }));
    assert_eq!(surface.unlock_rect(), UnmapRequest { resource: 0x7F, subresource: 0 });
}

#[test]
fn surfaces_of_the_device_are_not_locked() {
    let image = texture(0, MemoryPool::SystemMem, 1).texture;
    for data in [SurfaceData::RenderTarget(1), SurfaceData::DepthStencil(2)] {
        let surface = Surface::new(1, image, 0, UsageFlags::empty(), MemoryPool::Default, data);
        for flags in [0, LockFlags::DISCARD, LockFlags::READ_ONLY, 0xF010] {
            assert_eq!(surface.lock_rect(lock(flags)), Err(Error::NotAvailable));
        }
        // Unlocking always succeeds.
        assert_eq!(surface.unlock_rect(), UnmapRequest { resource: 0x7E, subresource: 0 });
        assert_eq!(surface.subtexture(), None);
    }
    let plain =
        Surface::new(1, image, 0, UsageFlags::empty(), MemoryPool::Default, SurfaceData::Plain);
    assert_eq!(plain.subtexture(), None);
    assert!(plain.lock_rect(lock(0)).is_ok());
    let surface =
        Surface::new(1, image, 3, UsageFlags::empty(), MemoryPool::Default, SurfaceData::SubTexture(9));
    assert_eq!(surface.subtexture(), Some(9));
    assert_eq!(surface.get_container(), 9);
    assert_eq!(surface.render_target_view(), None);
    assert_eq!(surface.depth_stencil_view(), None);
    assert_eq!(surface.lock_rect(lock(0)).unwrap().subresource, 3);
    assert_eq!(surface.unlock_rect(), UnmapRequest { resource: 0x7E, subresource: 3 });
}

#[test]
fn texture_levels() {
    let mut texture = texture(UsageFlags::WRITE_ONLY, MemoryPool::Managed, 3);
    assert_eq!(texture.base.level_count(), 3);
    assert_eq!(texture.base.get_level_count(), 3);
    for level in 0u32..3 {
        let surface = texture.get_surface_level(level).unwrap();
        assert_eq!(surface.subresource(), (0x7E, level));
        assert_eq!(surface.resource.pool(), MemoryPool::Managed);
        assert_eq!(surface.resource.usage().bits(), 8);
        assert_eq!(surface.get_container(), 0x7E);
        let desc = texture.get_level_desc(level).unwrap();
        assert_eq!((desc.format, desc.ty, desc.usage, desc.pool), (21, 1, 8, 1));
        assert_eq!(surface.get_desc(), Ok(desc));
    }
    assert_eq!(texture.get_surface_level(3), Err(Error::InvalidCall));
    assert_eq!(texture.get_level_desc(3), Err(Error::InvalidCall));
    assert_eq!(texture.get_surface_level(u32::MAX), Err(Error::InvalidCall));
    assert_eq!(
        texture.lock_rect(2, lock(LockFlags::DISCARD)),
        MapRequest { resource: 0x7E, subresource: 2, map_type: 4, map_flags: 0 }
    );
    assert_eq!(texture.unlock_rect(2), UnmapRequest { resource: 0x7E, subresource: 2 });
    assert_eq!(texture.add_dirty_rect(), Error::Success);
}

#[test]
fn cube_map_faces() {
    let usage = UsageFlags::from_bits_truncate(UsageFlags::DYNAMIC);
    let desc =
        Texture2D::new_cube_texture(128, 4, usage, D3DFMT_A8R8G8B8, MemoryPool::Default).unwrap();
    assert_eq!((desc.width, desc.height, desc.array_size, desc.mip_levels), (128, 128, 6, 4));
    let image = Texture2D::created(desc, 0, 0xCB).unwrap();
    let mut cube = CubeTexture::new(0xD0, image, 4, usage, MemoryPool::Default);
    assert_eq!(cube.get_cube_map_surface(0, 0).unwrap().subresource, 0);
    assert_eq!(cube.get_cube_map_surface(0, 3).unwrap().subresource, 3);
    assert_eq!(cube.get_cube_map_surface(1, 0).unwrap().subresource, 4);
    assert_eq!(cube.get_cube_map_surface(5, 3).unwrap().subresource, 23);
    assert_eq!(cube.get_cube_map_surface(6, 0), Err(Error::InvalidCall));
    assert_eq!(cube.get_cube_map_surface(0, 4), Err(Error::InvalidCall));
    assert_eq!(cube.get_level_desc(4), Err(Error::InvalidCall));
    assert_eq!(cube.get_level_desc(1).unwrap().format, 21);
    assert_eq!(cube.lock_rect(2, 1, lock(0)).subresource, 9);
    assert_eq!(cube.lock_rect(2, 1, lock(0)).map_type, 3);
    assert_eq!(cube.unlock_rect(2, 1), UnmapRequest { resource: 0xCB, subresource: 9 });
    assert_eq!(cube.add_dirty_rect(0), Error::Success);
    assert_eq!(image.calc_subresource(1, 2, 4), 9);
    assert_eq!(image.calc_subresource(u32::MAX, 1, 1), 0);
    assert_eq!(image.calc_subresource(0, u32::MAX, u32::MAX), 1);
}
