use d3d9_to_11::abi::d3d9::{
    ColorValue, Material, Matrix, Viewport, D3DCULL_CCW, D3DCULL_CW, D3DFOG_NONE,
    D3DRS_ALPHABLENDENABLE, D3DRS_CULLMODE, D3DRS_DEBUGMONITORTOKEN, D3DRS_FOGCOLOR,
    D3DRS_FOGENABLE, D3DRS_FOGEND, D3DRS_FOGTABLEMODE, D3DRS_LIGHTING, D3DRS_LOCALVIEWER,
    D3DRS_MULTISAMPLEANTIALIAS, D3DRS_MULTISAMPLEMASK, D3DRS_NORMALIZENORMALS, D3DRS_POINTSIZE,
    D3DRS_SPECULARENABLE, D3DRS_SRCBLEND,
    D3DRS_STENCILMASK, D3DRS_ZENABLE, D3DRS_ZFUNC, D3DSAMP_ADDRESSU, D3DSAMP_DMAPOFFSET,
    D3DSAMP_MAGFILTER, D3DSAMP_MAXANISOTROPY, D3DTOP_DISABLE, D3DTOP_MODULATE,
    D3DTOP_SELECTARG1, D3DTSS_ALPHAARG1, D3DTSS_ALPHAOP, D3DTSS_COLORARG1, D3DTSS_COLOROP,
    D3DTSS_CONSTANT, D3DTSS_TEXCOORDINDEX, D3DVERTEXTEXTURESAMPLER0, D3DVERTEXTEXTURESAMPLER3,
};
use d3d9_to_11::dev::state::unit::{SamplerState, TextureState};
use d3d9_to_11::dev::state::{DeviceState, PixelState, VertexState};

#[test]
fn fresh_state_reports_the_defaults() {
    let state = DeviceState::default();
    assert_eq!(state.get_render_state(D3DRS_CULLMODE), D3DCULL_CCW);
    assert_eq!(state.get_render_state(D3DRS_CULLMODE), 3);
    assert_eq!(state.get_render_state(D3DRS_FOGTABLEMODE), D3DFOG_NONE);
    assert_eq!(state.get_render_state(D3DRS_MULTISAMPLEANTIALIAS), 1);
    assert_eq!(f32::from_bits(state.get_render_state(D3DRS_POINTSIZE)), 1.0);
    assert_eq!(state.get_render_state(D3DRS_POINTSIZE), 0x3F80_0000);
    assert_eq!(state.get_texture_stage_state(0, D3DTSS_COLOROP), D3DTOP_MODULATE);
    assert_eq!(state.get_texture_stage_state(0, D3DTSS_COLOROP), 4);
    assert_eq!(state.get_texture_stage_state(0, D3DTSS_ALPHAOP), D3DTOP_SELECTARG1);
    assert_eq!(state.get_texture_stage_state(0, D3DTSS_ALPHAOP), 2);
    for stage in 1u32..16 {
        assert_eq!(state.get_texture_stage_state(stage, D3DTSS_COLOROP), D3DTOP_DISABLE);
        assert_eq!(state.get_texture_stage_state(stage, D3DTSS_COLOROP), 1);
        assert_eq!(state.get_texture_stage_state(stage, D3DTSS_ALPHAOP), D3DTOP_DISABLE);
    }
}

#[test]
fn more_defaults() {
    let state = DeviceState::default();
    assert_eq!(state.get_render_state(D3DRS_LIGHTING), 1);
    assert_eq!(state.get_render_state(D3DRS_MULTISAMPLEMASK), 0xFFFF_FFFF);
    assert_eq!(state.get_render_state(D3DRS_FOGEND), 1);
    assert_eq!(state.get_render_state(D3DRS_FOGCOLOR), 0);
    assert_eq!(state.get_render_state(D3DRS_ZENABLE), 1);
    assert_eq!(state.get_render_state(D3DRS_ZFUNC), 4);
    assert_eq!(state.get_render_state(D3DRS_SRCBLEND), 2);
    assert_eq!(state.get_render_state(D3DRS_STENCILMASK), 0xFFFF_FFFF);
    assert_eq!(state.get_render_state(D3DRS_ALPHABLENDENABLE), 0);
    assert_eq!(state.get_render_state(D3DRS_FOGENABLE), 0);
    assert_eq!(state.get_render_state(D3DRS_SPECULARENABLE), 0);
    assert_eq!(state.get_sampler_state(0, D3DSAMP_ADDRESSU), 1);
    assert_eq!(state.get_sampler_state(15, D3DSAMP_MAGFILTER), 1);
    assert_eq!(state.get_sampler_state(3, D3DSAMP_MAXANISOTROPY), 1);
    assert_eq!(state.get_sampler_state(257, D3DSAMP_DMAPOFFSET), 256);
    assert_eq!(state.get_sampler_state(260, D3DSAMP_DMAPOFFSET), 256);
    assert_eq!(state.get_texture_stage_state(0, D3DTSS_COLORARG1), 2);
    assert_eq!(state.get_texture_stage_state(7, D3DTSS_ALPHAARG1), 2);
    assert_eq!(state.get_texture_stage_state(257, D3DTSS_TEXCOORDINDEX), 0);
    assert_eq!(state.get_texture_stage_state(257, D3DTSS_COLOROP), 1);
    assert_eq!(state.get_vertex_declaration(), 0);
    assert_eq!(
        state.get_viewport(),
        Viewport { x: 0, y: 0, width: 0, height: 0, min_z: 0, max_z: 0 }
    );
    for stage in 0u32..300 {
        assert_eq!(state.get_texture(stage), 0);
    }
}

#[test]
fn vertex_sampler_remap_is_symmetric() {
    assert_eq!(D3DVERTEXTEXTURESAMPLER0, 257);
    assert_eq!(D3DVERTEXTEXTURESAMPLER3, 260);
    for ty in 1u32..=13 {
        for value in [0u32, 1, 7, 0xDEAD_BEEF, u32::MAX] {
            let mut state = DeviceState::default();
            state.set_sampler_state(260, ty, value);
            assert_eq!(state.get_sampler_state(260, ty), value);

            let mut vertex = VertexState::default();
            vertex.set_sampler_state(3, ty, value);
            assert_eq!(vertex.get_sampler_state(3, ty), value);
            assert_eq!(state.get_sampler_state(260, ty), vertex.get_sampler_state(3, ty));
        }
    }
}

#[test]
fn vertex_samplers_are_apart_from_pixel_samplers() {
    let mut state = DeviceState::default();
    state.set_sampler_state(257, D3DSAMP_ADDRESSU, 3);
    state.set_sampler_state(258, D3DSAMP_ADDRESSU, 4);
    state.set_sampler_state(0, D3DSAMP_ADDRESSU, 5);
    state.set_sampler_state(1, D3DSAMP_ADDRESSU, 2);
    assert_eq!(state.get_sampler_state(257, D3DSAMP_ADDRESSU), 3);
    assert_eq!(state.get_sampler_state(258, D3DSAMP_ADDRESSU), 4);
    assert_eq!(state.get_sampler_state(259, D3DSAMP_ADDRESSU), 1);
    assert_eq!(state.get_sampler_state(0, D3DSAMP_ADDRESSU), 5);
    assert_eq!(state.get_sampler_state(1, D3DSAMP_ADDRESSU), 2);
    assert_eq!(state.get_sampler_state(2, D3DSAMP_ADDRESSU), 1);
}

#[test]
fn samplers_that_do_not_exist_read_as_zero() {
    let mut state = DeviceState::default();
    for sampler in [16u32, 17, 255, 256, 261, 1000, u32::MAX] {
        state.set_sampler_state(sampler, D3DSAMP_ADDRESSU, 9);
        assert_eq!(state.get_sampler_state(sampler, D3DSAMP_ADDRESSU), 0);
        state.set_texture_stage_state(sampler, D3DTSS_COLOROP, 9);
        assert_eq!(state.get_texture_stage_state(sampler, D3DTSS_COLOROP), 0);
    }
    // Nothing else was disturbed.
    assert_eq!(state.get_sampler_state(0, D3DSAMP_ADDRESSU), 1);
    assert_eq!(state.get_sampler_state(257, D3DSAMP_ADDRESSU), 1);
}

#[test]
fn states_that_are_not_tracked_read_as_zero() {
    let mut state = DeviceState::default();
    for ty in [0u32, 14, 100, u32::MAX] {
        state.set_sampler_state(260, ty, 77);
        assert_eq!(state.get_sampler_state(260, ty), 0);
        state.set_sampler_state(3, ty, 77);
        assert_eq!(state.get_sampler_state(3, ty), 0);
    }
    for ty in [0u32, 12, 21, 25, 29, 33, u32::MAX] {
        state.set_texture_stage_state(0, ty, 77);
        assert_eq!(state.get_texture_stage_state(0, ty), 0);
    }
    for key in [0u32, 1, 6, D3DRS_NORMALIZENORMALS, D3DRS_DEBUGMONITORTOKEN, 210, u32::MAX] {
        state.set_render_state(key, 77);
        assert_eq!(state.get_render_state(key), 0);
    }
}

#[test]
fn render_states_are_set_and_read() {
    let mut state = DeviceState::default();
    state.set_render_state(D3DRS_CULLMODE, D3DCULL_CW);
    assert_eq!(state.get_render_state(D3DRS_CULLMODE), D3DCULL_CW);
    state.set_render_state(D3DRS_ZENABLE, 0);
    assert_eq!(state.get_render_state(D3DRS_ZENABLE), 0);
    state.set_render_state(D3DRS_FOGCOLOR, 0x00FF_8040);
    assert_eq!(state.get_render_state(D3DRS_FOGCOLOR), 0x00FF_8040);
    state.set_render_state(D3DRS_FOGENABLE, 1);
    assert_eq!(state.get_render_state(D3DRS_FOGENABLE), 1);
    state.set_render_state(D3DRS_SPECULARENABLE, 1);
    assert_eq!(state.get_render_state(D3DRS_SPECULARENABLE), 1);
    // The others stay as they were.
    assert_eq!(state.get_render_state(D3DRS_LIGHTING), 1);
    assert_eq!(state.get_render_state(D3DRS_SRCBLEND), 2);
}

#[test]
fn shared_render_states_are_written_to_both_blocks() {
    let mut vertex = VertexState::default();
    let mut pixel = PixelState::default();
    for key in [D3DRS_FOGCOLOR, D3DRS_FOGEND, D3DRS_LOCALVIEWER] {
        assert!(vertex.get_render_state(key).is_some());
        assert!(pixel.get_render_state(key).is_some());
        vertex.set_render_state(key, 0x1234);
        pixel.set_render_state(key, 0x1234);
        assert_eq!(vertex.get_render_state(key), Some(0x1234));
        assert_eq!(pixel.get_render_state(key), Some(0x1234));
    }
    assert_eq!(vertex.get_render_state(D3DRS_ZENABLE), None);
    assert_eq!(pixel.get_render_state(D3DRS_ZENABLE), Some(1));
    assert_eq!(vertex.get_render_state(D3DRS_CULLMODE), Some(3));
    assert_eq!(pixel.get_render_state(D3DRS_CULLMODE), None);
    // A state that a block does not track leaves the block as it is.
    let mut untouched = VertexState::default();
    untouched.set_render_state(D3DRS_ZENABLE, 5);
    assert_eq!(untouched, VertexState::default());
    let mut untouched = PixelState::default();
    untouched.set_render_state(D3DRS_CULLMODE, 5);
    assert_eq!(untouched, PixelState::default());
}

#[test]
fn an_empty_pixel_state_reads_as_zero() {
    let pixel = PixelState::empty();
    assert_eq!(pixel.get_render_state(D3DRS_ZENABLE), Some(0));
    assert_eq!(pixel.get_render_state(D3DRS_STENCILMASK), Some(0));
    assert_eq!(pixel.get_render_state(D3DRS_CULLMODE), None);
    assert_eq!(pixel.get_sampler_state(0, D3DSAMP_ADDRESSU), 0);
    assert_eq!(pixel.get_texture_stage_state(0, D3DTSS_COLOROP), 0);
    assert_ne!(pixel, PixelState::default());
}

#[test]
fn texture_stage_states_are_set_and_read() {
    let mut state = DeviceState::default();
    for (stage, ty, value) in
        [(0u32, D3DTSS_COLOROP, 7u32), (15, D3DTSS_CONSTANT, 0xFFFF_FFFF), (260, D3DTSS_ALPHAOP, 3)]
    {
        state.set_texture_stage_state(stage, ty, value);
        assert_eq!(state.get_texture_stage_state(stage, ty), value);
    }
    assert_eq!(state.get_texture_stage_state(1, D3DTSS_COLOROP), 1);
    assert_eq!(state.get_texture_stage_state(0, D3DTSS_ALPHAOP), 2);
    assert_eq!(state.get_texture_stage_state(259, D3DTSS_ALPHAOP), 1);
}

#[test]
fn unit_tables() {
    let mut sampler = SamplerState::default();
    assert_eq!(sampler.get(D3DSAMP_DMAPOFFSET), 256);
    sampler.set(D3DSAMP_DMAPOFFSET, 1);
    assert_eq!(sampler.get(D3DSAMP_DMAPOFFSET), 1);
    sampler.set(14, 5);
    assert_eq!(sampler.get(14), 0);
    assert_eq!(sampler.values.len(), 13);

    let mut stage = TextureState::default();
    assert_eq!(stage.get(D3DTSS_COLOROP), 1);
    stage.set(D3DTSS_CONSTANT, 9);
    assert_eq!(stage.get(D3DTSS_CONSTANT), 9);
    assert_eq!(stage.values.len(), 18);
}

#[test]
fn textures_are_bound_to_slots() {
    let mut state = DeviceState::default();
    state.set_texture(0, 100);
    state.set_texture(15, 115);
    state.set_texture(257, 200);
    state.set_texture(260, 203);
    assert_eq!(state.get_texture(0), 100);
    assert_eq!(state.get_texture(15), 115);
    assert_eq!(state.get_texture(257), 200);
    assert_eq!(state.get_texture(260), 203);
    // The vertex units follow the sixteen pixel units.
    assert_eq!(state.get_texture(16), 200);
    assert_eq!(state.get_texture(19), 203);
    state.set_texture(20, 5);
    state.set_texture(256, 5);
    state.set_texture(261, 5);
    assert_eq!(state.get_texture(20), 0);
    assert_eq!(state.get_texture(256), 0);
    assert_eq!(state.get_texture(261), 0);
    assert_eq!(state.get_texture(1), 0);
}

#[test]
fn transforms_default_to_the_identity() {
    let mut state = DeviceState::default();
    let identity = state.get_transform(2);
    for (i, word) in identity.m.iter().enumerate() {
        let expected = if i % 5 == 0 { 1.0 } else { 0.0 };
        assert_eq!(f32::from_bits(*word), expected);
    }
    let mut m = [0u32; 16];
    for (i, word) in m.iter_mut().enumerate() {
        *word = (i as f32 * 0.5).to_bits();
    }
    state.set_transform(256, Matrix { m });
    assert_eq!(state.get_transform(256), Matrix { m });
    assert_eq!(state.get_transform(2), identity);
    state.set_transform(256, identity);
    assert_eq!(state.get_transform(256), identity);
}

#[test]
fn viewport_material_and_declaration_are_stored() {
    let mut state = DeviceState::default();
    let vp = Viewport {
        x: 1,
        y: 2,
        width: 640,
        height: 480,
        min_z: 0.25f32.to_bits(),
        max_z: 0.75f32.to_bits(),
    };
    state.set_viewport(&vp);
    assert_eq!(state.get_viewport(), vp);

    let black = ColorValue { r: 0, g: 0, b: 0, a: 0 };
    assert_eq!(
        state.get_material(),
        Material { diffuse: black, ambient: black, specular: black, emissive: black, power: 0 }
    );
    let red = ColorValue { r: 1.0f32.to_bits(), g: 0, b: 0, a: 1.0f32.to_bits() };
    let mat = Material {
        diffuse: red,
        ambient: black,
        specular: red,
        emissive: black,
        power: 8.0f32.to_bits(),
    };
    state.set_material(&mat);
    assert_eq!(state.get_material(), mat);

    state.set_vertex_declaration(0x1000);
    assert_eq!(state.get_vertex_declaration(), 0x1000);
    assert_eq!(state.get_viewport(), vp);
}
