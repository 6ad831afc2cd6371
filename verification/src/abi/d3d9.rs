//! The legacy interface: enumerants, flags and structures.

use vstd::prelude::*;

verus! {

// Surface and buffer formats.
pub const D3DFMT_UNKNOWN: u32 = 0;
pub const D3DFMT_R8G8B8: u32 = 20;
pub const D3DFMT_A8R8G8B8: u32 = 21;
pub const D3DFMT_X8R8G8B8: u32 = 22;
pub const D3DFMT_R5G6B5: u32 = 23;
pub const D3DFMT_X1R5G5B5: u32 = 24;
pub const D3DFMT_A1R5G5B5: u32 = 25;
pub const D3DFMT_A4R4G4B4: u32 = 26;
pub const D3DFMT_R3G3B2: u32 = 27;
pub const D3DFMT_A8: u32 = 28;
pub const D3DFMT_A8R3G3B2: u32 = 29;
pub const D3DFMT_X4R4G4B4: u32 = 30;
pub const D3DFMT_A2B10G10R10: u32 = 31;
pub const D3DFMT_A8B8G8R8: u32 = 32;
pub const D3DFMT_X8B8G8R8: u32 = 33;
pub const D3DFMT_G16R16: u32 = 34;
pub const D3DFMT_A2R10G10B10: u32 = 35;
pub const D3DFMT_A16B16G16R16: u32 = 36;
pub const D3DFMT_A8P8: u32 = 40;
pub const D3DFMT_P8: u32 = 41;
pub const D3DFMT_L8: u32 = 50;
pub const D3DFMT_A8L8: u32 = 51;
pub const D3DFMT_A4L4: u32 = 52;
pub const D3DFMT_V8U8: u32 = 60;
pub const D3DFMT_L6V5U5: u32 = 61;
pub const D3DFMT_X8L8V8U8: u32 = 62;
pub const D3DFMT_Q8W8V8U8: u32 = 63;
pub const D3DFMT_V16U16: u32 = 64;
pub const D3DFMT_A2W10V10U10: u32 = 67;
pub const D3DFMT_UYVY: u32 = 0x5956_5955;
pub const D3DFMT_R8G8_B8G8: u32 = 0x4742_4752;
pub const D3DFMT_YUY2: u32 = 0x3259_5559;
pub const D3DFMT_G8R8_G8B8: u32 = 0x4247_5247;
pub const D3DFMT_DXT1: u32 = 0x3154_5844;
pub const D3DFMT_DXT2: u32 = 0x3254_5844;
pub const D3DFMT_DXT3: u32 = 0x3354_5844;
pub const D3DFMT_DXT4: u32 = 0x3454_5844;
pub const D3DFMT_DXT5: u32 = 0x3554_5844;
pub const D3DFMT_D16_LOCKABLE: u32 = 70;
pub const D3DFMT_D32: u32 = 71;
pub const D3DFMT_D15S1: u32 = 73;
pub const D3DFMT_D24S8: u32 = 75;
pub const D3DFMT_D24X8: u32 = 77;
pub const D3DFMT_D24X4S4: u32 = 79;
pub const D3DFMT_D16: u32 = 80;
pub const D3DFMT_D32F_LOCKABLE: u32 = 82;
pub const D3DFMT_D24FS8: u32 = 83;
pub const D3DFMT_D32_LOCKABLE: u32 = 84;
pub const D3DFMT_S8_LOCKABLE: u32 = 85;
pub const D3DFMT_L16: u32 = 81;
pub const D3DFMT_VERTEXDATA: u32 = 100;
pub const D3DFMT_INDEX16: u32 = 101;
pub const D3DFMT_INDEX32: u32 = 102;
pub const D3DFMT_Q16W16V16U16: u32 = 110;
pub const D3DFMT_MULTI2_ARGB8: u32 = 0x3154_454D;
pub const D3DFMT_R16F: u32 = 111;
pub const D3DFMT_G16R16F: u32 = 112;
pub const D3DFMT_A16B16G16R16F: u32 = 113;
pub const D3DFMT_R32F: u32 = 114;
pub const D3DFMT_G32R32F: u32 = 115;
pub const D3DFMT_A32B32G32R32F: u32 = 116;
pub const D3DFMT_CxV8U8: u32 = 117;
pub const D3DFMT_A1: u32 = 118;
pub const D3DFMT_A2B10G10R10_XR_BIAS: u32 = 119;
pub const D3DFMT_BINARYBUFFER: u32 = 199;

// Render state keys.
pub const D3DRS_ZENABLE: u32 = 7;
pub const D3DRS_FILLMODE: u32 = 8;
pub const D3DRS_SHADEMODE: u32 = 9;
pub const D3DRS_ZWRITEENABLE: u32 = 14;
pub const D3DRS_ALPHATESTENABLE: u32 = 15;
pub const D3DRS_LASTPIXEL: u32 = 16;
pub const D3DRS_SRCBLEND: u32 = 19;
pub const D3DRS_DESTBLEND: u32 = 20;
pub const D3DRS_CULLMODE: u32 = 22;
pub const D3DRS_ZFUNC: u32 = 23;
pub const D3DRS_ALPHAREF: u32 = 24;
pub const D3DRS_ALPHAFUNC: u32 = 25;
pub const D3DRS_DITHERENABLE: u32 = 26;
pub const D3DRS_ALPHABLENDENABLE: u32 = 27;
pub const D3DRS_FOGENABLE: u32 = 28;
pub const D3DRS_SPECULARENABLE: u32 = 29;
pub const D3DRS_FOGCOLOR: u32 = 34;
pub const D3DRS_FOGTABLEMODE: u32 = 35;
pub const D3DRS_FOGSTART: u32 = 36;
pub const D3DRS_FOGEND: u32 = 37;
pub const D3DRS_FOGDENSITY: u32 = 38;
pub const D3DRS_RANGEFOGENABLE: u32 = 48;
pub const D3DRS_STENCILENABLE: u32 = 52;
pub const D3DRS_STENCILFAIL: u32 = 53;
pub const D3DRS_STENCILZFAIL: u32 = 54;
pub const D3DRS_STENCILPASS: u32 = 55;
pub const D3DRS_STENCILFUNC: u32 = 56;
pub const D3DRS_STENCILREF: u32 = 57;
pub const D3DRS_STENCILMASK: u32 = 58;
pub const D3DRS_STENCILWRITEMASK: u32 = 59;
pub const D3DRS_TEXTUREFACTOR: u32 = 60;
pub const D3DRS_WRAP0: u32 = 128;
pub const D3DRS_WRAP1: u32 = 129;
pub const D3DRS_WRAP2: u32 = 130;
pub const D3DRS_WRAP3: u32 = 131;
pub const D3DRS_WRAP4: u32 = 132;
pub const D3DRS_WRAP5: u32 = 133;
pub const D3DRS_WRAP6: u32 = 134;
pub const D3DRS_WRAP7: u32 = 135;
pub const D3DRS_CLIPPING: u32 = 136;
pub const D3DRS_LIGHTING: u32 = 137;
pub const D3DRS_AMBIENT: u32 = 139;
pub const D3DRS_FOGVERTEXMODE: u32 = 140;
pub const D3DRS_COLORVERTEX: u32 = 141;
pub const D3DRS_LOCALVIEWER: u32 = 142;
pub const D3DRS_NORMALIZENORMALS: u32 = 143;
pub const D3DRS_DIFFUSEMATERIALSOURCE: u32 = 145;
pub const D3DRS_SPECULARMATERIALSOURCE: u32 = 146;
pub const D3DRS_AMBIENTMATERIALSOURCE: u32 = 147;
pub const D3DRS_EMISSIVEMATERIALSOURCE: u32 = 148;
pub const D3DRS_VERTEXBLEND: u32 = 151;
pub const D3DRS_CLIPPLANEENABLE: u32 = 152;
pub const D3DRS_POINTSIZE: u32 = 154;
pub const D3DRS_POINTSIZE_MIN: u32 = 155;
pub const D3DRS_POINTSPRITEENABLE: u32 = 156;
pub const D3DRS_POINTSCALEENABLE: u32 = 157;
pub const D3DRS_POINTSCALE_A: u32 = 158;
pub const D3DRS_POINTSCALE_B: u32 = 159;
pub const D3DRS_POINTSCALE_C: u32 = 160;
pub const D3DRS_MULTISAMPLEANTIALIAS: u32 = 161;
pub const D3DRS_MULTISAMPLEMASK: u32 = 162;
pub const D3DRS_PATCHEDGESTYLE: u32 = 163;
pub const D3DRS_DEBUGMONITORTOKEN: u32 = 165;
pub const D3DRS_POINTSIZE_MAX: u32 = 166;
pub const D3DRS_INDEXEDVERTEXBLENDENABLE: u32 = 167;
pub const D3DRS_COLORWRITEENABLE: u32 = 168;
pub const D3DRS_TWEENFACTOR: u32 = 170;
pub const D3DRS_BLENDOP: u32 = 171;
pub const D3DRS_POSITIONDEGREE: u32 = 172;
pub const D3DRS_NORMALDEGREE: u32 = 173;
pub const D3DRS_SCISSORTESTENABLE: u32 = 174;
pub const D3DRS_SLOPESCALEDEPTHBIAS: u32 = 175;
pub const D3DRS_ANTIALIASEDLINEENABLE: u32 = 176;
pub const D3DRS_MINTESSELLATIONLEVEL: u32 = 178;
pub const D3DRS_MAXTESSELLATIONLEVEL: u32 = 179;
pub const D3DRS_ADAPTIVETESS_X: u32 = 180;
pub const D3DRS_ADAPTIVETESS_Y: u32 = 181;
pub const D3DRS_ADAPTIVETESS_Z: u32 = 182;
pub const D3DRS_ADAPTIVETESS_W: u32 = 183;
pub const D3DRS_ENABLEADAPTIVETESSELLATION: u32 = 184;
pub const D3DRS_TWOSIDEDSTENCILMODE: u32 = 185;
pub const D3DRS_CCW_STENCILFAIL: u32 = 186;
pub const D3DRS_CCW_STENCILZFAIL: u32 = 187;
pub const D3DRS_CCW_STENCILPASS: u32 = 188;
pub const D3DRS_CCW_STENCILFUNC: u32 = 189;
pub const D3DRS_COLORWRITEENABLE1: u32 = 190;
pub const D3DRS_COLORWRITEENABLE2: u32 = 191;
pub const D3DRS_COLORWRITEENABLE3: u32 = 192;
pub const D3DRS_BLENDFACTOR: u32 = 193;
pub const D3DRS_SRGBWRITEENABLE: u32 = 194;
pub const D3DRS_DEPTHBIAS: u32 = 195;
pub const D3DRS_WRAP8: u32 = 198;
pub const D3DRS_WRAP9: u32 = 199;
pub const D3DRS_WRAP10: u32 = 200;
pub const D3DRS_WRAP11: u32 = 201;
pub const D3DRS_WRAP12: u32 = 202;
pub const D3DRS_WRAP13: u32 = 203;
pub const D3DRS_WRAP14: u32 = 204;
pub const D3DRS_WRAP15: u32 = 205;
pub const D3DRS_SEPARATEALPHABLENDENABLE: u32 = 206;
pub const D3DRS_SRCBLENDALPHA: u32 = 207;
pub const D3DRS_DESTBLENDALPHA: u32 = 208;
pub const D3DRS_BLENDOPALPHA: u32 = 209;

// Sampler state keys.
pub const D3DSAMP_ADDRESSU: u32 = 1;
pub const D3DSAMP_ADDRESSV: u32 = 2;
pub const D3DSAMP_ADDRESSW: u32 = 3;
pub const D3DSAMP_BORDERCOLOR: u32 = 4;
pub const D3DSAMP_MAGFILTER: u32 = 5;
pub const D3DSAMP_MINFILTER: u32 = 6;
pub const D3DSAMP_MIPFILTER: u32 = 7;
pub const D3DSAMP_MIPMAPLODBIAS: u32 = 8;
pub const D3DSAMP_MAXMIPLEVEL: u32 = 9;
pub const D3DSAMP_MAXANISOTROPY: u32 = 10;
pub const D3DSAMP_SRGBTEXTURE: u32 = 11;
pub const D3DSAMP_ELEMENTINDEX: u32 = 12;
pub const D3DSAMP_DMAPOFFSET: u32 = 13;

// Texture stage state keys.
pub const D3DTSS_COLOROP: u32 = 1;
pub const D3DTSS_COLORARG1: u32 = 2;
pub const D3DTSS_COLORARG2: u32 = 3;
pub const D3DTSS_ALPHAOP: u32 = 4;
pub const D3DTSS_ALPHAARG1: u32 = 5;
pub const D3DTSS_ALPHAARG2: u32 = 6;
pub const D3DTSS_BUMPENVMAT00: u32 = 7;
pub const D3DTSS_BUMPENVMAT01: u32 = 8;
pub const D3DTSS_BUMPENVMAT10: u32 = 9;
pub const D3DTSS_BUMPENVMAT11: u32 = 10;
pub const D3DTSS_TEXCOORDINDEX: u32 = 11;
pub const D3DTSS_BUMPENVLSCALE: u32 = 22;
pub const D3DTSS_BUMPENVLOFFSET: u32 = 23;
pub const D3DTSS_TEXTURETRANSFORMFLAGS: u32 = 24;
pub const D3DTSS_COLORARG0: u32 = 26;
pub const D3DTSS_ALPHAARG0: u32 = 27;
pub const D3DTSS_RESULTARG: u32 = 28;
pub const D3DTSS_CONSTANT: u32 = 32;

// Sampler indices of the displacement map and of the four vertex texture units.
pub const D3DDMAPSAMPLER: u32 = 256;
pub const D3DVERTEXTEXTURESAMPLER0: u32 = 257;
pub const D3DVERTEXTEXTURESAMPLER1: u32 = 258;
pub const D3DVERTEXTEXTURESAMPLER2: u32 = 259;
pub const D3DVERTEXTEXTURESAMPLER3: u32 = 260;

// Values of render, sampler and texture stage states.
pub const D3DZB_FALSE: u32 = 0;
pub const D3DZB_TRUE: u32 = 1;
pub const D3DZB_USEW: u32 = 2;
pub const D3DFILL_POINT: u32 = 1;
pub const D3DFILL_WIREFRAME: u32 = 2;
pub const D3DFILL_SOLID: u32 = 3;
pub const D3DSHADE_FLAT: u32 = 1;
pub const D3DSHADE_GOURAUD: u32 = 2;
pub const D3DSHADE_PHONG: u32 = 3;
pub const D3DBLEND_ZERO: u32 = 1;
pub const D3DBLEND_ONE: u32 = 2;
pub const D3DBLENDOP_ADD: u32 = 1;
pub const D3DCULL_NONE: u32 = 1;
pub const D3DCULL_CW: u32 = 2;
pub const D3DCULL_CCW: u32 = 3;
pub const D3DCMP_NEVER: u32 = 1;
pub const D3DCMP_LESS: u32 = 2;
pub const D3DCMP_EQUAL: u32 = 3;
pub const D3DCMP_LESSEQUAL: u32 = 4;
pub const D3DCMP_GREATER: u32 = 5;
pub const D3DCMP_NOTEQUAL: u32 = 6;
pub const D3DCMP_GREATEREQUAL: u32 = 7;
pub const D3DCMP_ALWAYS: u32 = 8;
pub const D3DSTENCILOP_KEEP: u32 = 1;
pub const D3DFOG_NONE: u32 = 0;
pub const D3DFOG_EXP: u32 = 1;
pub const D3DFOG_EXP2: u32 = 2;
pub const D3DFOG_LINEAR: u32 = 3;
pub const D3DMCS_MATERIAL: u32 = 0;
pub const D3DMCS_COLOR1: u32 = 1;
pub const D3DMCS_COLOR2: u32 = 2;
pub const D3DVBF_DISABLE: u32 = 0;
pub const D3DPATCHEDGE_DISCRETE: u32 = 0;
pub const D3DPATCHEDGE_CONTINUOUS: u32 = 1;
pub const D3DDEGREE_LINEAR: u32 = 1;
pub const D3DDEGREE_QUADRATIC: u32 = 2;
pub const D3DDEGREE_CUBIC: u32 = 3;
pub const D3DDEGREE_QUINTIC: u32 = 5;
pub const D3DTTFF_DISABLE: u32 = 0;
pub const D3DTADDRESS_WRAP: u32 = 1;
pub const D3DTADDRESS_MIRROR: u32 = 2;
pub const D3DTADDRESS_CLAMP: u32 = 3;
pub const D3DTADDRESS_BORDER: u32 = 4;
pub const D3DTADDRESS_MIRRORONCE: u32 = 5;
pub const D3DTEXF_NONE: u32 = 0;
pub const D3DTEXF_POINT: u32 = 1;
pub const D3DTEXF_LINEAR: u32 = 2;
pub const D3DTOP_DISABLE: u32 = 1;
pub const D3DTOP_SELECTARG1: u32 = 2;
pub const D3DTOP_SELECTARG2: u32 = 3;
pub const D3DTOP_MODULATE: u32 = 4;
pub const D3DTA_DIFFUSE: u32 = 0;
pub const D3DTA_CURRENT: u32 = 1;
pub const D3DTA_TEXTURE: u32 = 2;

// The type of the element that ends a vertex declaration.
pub const D3DDECLTYPE_UNUSED: u32 = 17;

// Swap effects and back buffer kinds.
pub const D3DSWAPEFFECT_DISCARD: u32 = 1;
pub const D3DSWAPEFFECT_FLIP: u32 = 2;
pub const D3DSWAPEFFECT_COPY: u32 = 3;
pub const D3DSWAPEFFECT_OVERLAY: u32 = 4;
pub const D3DSWAPEFFECT_FLIPEX: u32 = 5;
pub const D3DBACKBUFFER_TYPE_MONO: u32 = 0;
pub const D3DBACKBUFFER_TYPE_LEFT: u32 = 1;
pub const D3DBACKBUFFER_TYPE_RIGHT: u32 = 2;

// Device and resource kinds, memory pools.
pub const D3DDEVTYPE_HAL: u32 = 1;
pub const D3DDEVTYPE_REF: u32 = 2;
pub const D3DDEVTYPE_SW: u32 = 3;
pub const D3DDEVTYPE_NULLREF: u32 = 4;
pub const D3DRTYPE_SURFACE: u32 = 1;
pub const D3DRTYPE_VOLUME: u32 = 2;
pub const D3DRTYPE_TEXTURE: u32 = 3;
pub const D3DRTYPE_VOLUMETEXTURE: u32 = 4;
pub const D3DRTYPE_CUBETEXTURE: u32 = 5;
pub const D3DRTYPE_VERTEXBUFFER: u32 = 6;
pub const D3DRTYPE_INDEXBUFFER: u32 = 7;
pub const D3DPOOL_DEFAULT: u32 = 0;
pub const D3DPOOL_MANAGED: u32 = 1;
pub const D3DPOOL_SYSTEMMEM: u32 = 2;
pub const D3DPOOL_SCRATCH: u32 = 3;

// Usage, lock, presentation and creation flags.
pub const D3DUSAGE_RENDERTARGET: u32 = 0x0000_0001;
pub const D3DUSAGE_DEPTHSTENCIL: u32 = 0x0000_0002;
pub const D3DUSAGE_WRITEONLY: u32 = 0x0000_0008;
pub const D3DUSAGE_POINTS: u32 = 0x0000_0040;
pub const D3DUSAGE_RTPATCHES: u32 = 0x0000_0080;
pub const D3DUSAGE_NPATCHES: u32 = 0x0000_0100;
pub const D3DUSAGE_DYNAMIC: u32 = 0x0000_0200;
pub const D3DUSAGE_AUTOGENMIPMAP: u32 = 0x0000_0400;
pub const D3DUSAGE_DMAP: u32 = 0x0000_4000;
pub const D3DLOCK_READONLY: u32 = 0x0000_0010;
pub const D3DLOCK_NOOVERWRITE: u32 = 0x0000_1000;
pub const D3DLOCK_DISCARD: u32 = 0x0000_2000;
pub const D3DLOCK_DONOTWAIT: u32 = 0x0000_4000;
pub const D3DLOCK_NO_DIRTY_UPDATE: u32 = 0x0000_8000;
pub const D3DPRESENTFLAG_DISCARD_DEPTHSTENCIL: u32 = 0x0000_0002;
pub const D3DCREATE_ADAPTERGROUP_DEVICE: u32 = 0x0000_0200;

// Capability bits.
pub const D3DCAPS2_FULLSCREENGAMMA: u32 = 0x0002_0000;
pub const D3DCAPS2_CANCALIBRATEGAMMA: u32 = 0x0010_0000;
pub const D3DCAPS2_CANMANAGERESOURCE: u32 = 0x1000_0000;
pub const D3DCAPS2_DYNAMICTEXTURES: u32 = 0x2000_0000;
pub const D3DCAPS2_CANAUTOGENMIPMAP: u32 = 0x4000_0000;
pub const D3DCAPS3_ALPHA_FULLSCREEN_FLIP_OR_DISCARD: u32 = 0x0000_0020;
pub const D3DCAPS3_LINEAR_TO_SRGB_PRESENTATION: u32 = 0x0000_0080;
pub const D3DCAPS3_COPY_TO_VIDMEM: u32 = 0x0000_0100;
pub const D3DCAPS3_COPY_TO_SYSTEMMEM: u32 = 0x0000_0200;
pub const D3DPTEXTURECAPS_NOPROJECTEDBUMPENV: u32 = 0x0020_0000;

/// A display mode as the legacy interface reports it.
#[derive(Debug, Copy, Clone, PartialEq, Eq, Structural)]
pub struct DisplayMode {
    pub width: u32,
    pub height: u32,
    pub refresh_rate: u32,
    pub format: u32,
}

/// The parameters a device was created with.
#[derive(Debug, Copy, Clone, PartialEq, Eq, Structural)]
pub struct CreationParameters {
    pub adapter_ordinal: u32,
    pub device_type: u32,
    pub focus_window: usize,
    pub behavior_flags: u32,
}

/// Presentation parameters of a swap chain.
#[derive(Debug, Copy, Clone, PartialEq, Eq, Structural)]
pub struct PresentParameters {
    pub back_buffer_width: u32,
    pub back_buffer_height: u32,
    pub back_buffer_format: u32,
    pub back_buffer_count: u32,
    pub multi_sample_type: u32,
    pub multi_sample_quality: u32,
    pub swap_effect: u32,
    pub device_window: usize,
    pub windowed: u32,
    pub enable_auto_depth_stencil: u32,
    pub auto_depth_stencil_format: u32,
    pub flags: u32,
    pub full_screen_refresh_rate_in_hz: u32,
    pub presentation_interval: u32,
}

/// The part of the render target that is drawn to. `min_z` and `max_z` are
/// bit patterns of single-precision numbers.
#[derive(Debug, Copy, Clone, PartialEq, Eq, Structural)]
pub struct Viewport {
    pub x: u32,
    pub y: u32,
    pub width: u32,
    pub height: u32,
    pub min_z: u32,
    pub max_z: u32,
}

/// Description of a surface.
#[derive(Debug, Copy, Clone, PartialEq, Eq, Structural)]
pub struct SurfaceDesc {
    pub format: u32,
    pub ty: u32,
    pub usage: u32,
    pub pool: u32,
    pub multi_sample_type: u32,
    pub multi_sample_quality: u32,
    pub width: u32,
    pub height: u32,
}

/// Description of a vertex buffer.
#[derive(Debug, Copy, Clone, PartialEq, Eq, Structural)]
pub struct VertexBufferDesc {
    pub format: u32,
    pub ty: u32,
    pub usage: u32,
    pub pool: u32,
    pub size: u32,
    pub fvf: u32,
}

/// Description of an index buffer.
#[derive(Debug, Copy, Clone, PartialEq, Eq, Structural)]
pub struct IndexBufferDesc {
    pub format: u32,
    pub ty: u32,
    pub usage: u32,
    pub pool: u32,
    pub size: u32,
}

/// A locked rectangle: the distance between two rows in bytes and the address
/// of the first row.
#[derive(Debug, Copy, Clone, PartialEq, Eq, Structural)]
pub struct LockedRect {
    pub pitch: i32,
    pub bits: usize,
}

/// A rectangle in pixels.
#[derive(Debug, Copy, Clone, PartialEq, Eq, Structural)]
pub struct Rect {
    pub left: i32,
    pub top: i32,
    pub right: i32,
    pub bottom: i32,
}

/// A point in pixels.
#[derive(Debug, Copy, Clone, PartialEq, Eq, Structural)]
pub struct Point {
    pub x: i32,
    pub y: i32,
}

/// One element of a vertex declaration.
#[derive(Debug, Copy, Clone, PartialEq, Eq, Structural)]
pub struct VertexElement {
    pub stream: u16,
    pub offset: u16,
    pub ty: u8,
    pub method: u8,
    pub usage: u8,
    pub usage_index: u8,
}

/// Vertex shader capabilities of shader model 2.
#[derive(Debug, Copy, Clone, PartialEq, Eq, Structural)]
pub struct VertexShaderCaps20 {
    pub caps: u32,
    pub dynamic_flow_control_depth: i32,
    pub num_temps: i32,
    pub static_flow_control_depth: i32,
}

/// Pixel shader capabilities of shader model 2.
#[derive(Debug, Copy, Clone, PartialEq, Eq, Structural)]
pub struct PixelShaderCaps20 {
    pub caps: u32,
    pub dynamic_flow_control_depth: i32,
    pub num_temps: i32,
    pub static_flow_control_depth: i32,
    pub num_instruction_slots: i32,
}

/// The capability descriptor of a device. Fields that the legacy interface
/// types as single-precision numbers hold bit patterns.
#[derive(Debug, Copy, Clone, PartialEq, Eq, Structural)]
pub struct Caps {
    pub device_type: u32,
    pub adapter_ordinal: u32,
    pub caps: u32,
    pub caps2: u32,
    pub caps3: u32,
    pub presentation_intervals: u32,
    pub cursor_caps: u32,
    pub dev_caps: u32,
    pub primitive_misc_caps: u32,
    pub raster_caps: u32,
    pub z_cmp_caps: u32,
    pub src_blend_caps: u32,
    pub dest_blend_caps: u32,
    pub alpha_cmp_caps: u32,
    pub shade_caps: u32,
    pub texture_caps: u32,
    pub texture_filter_caps: u32,
    pub cube_texture_filter_caps: u32,
    pub volume_texture_filter_caps: u32,
    pub texture_address_caps: u32,
    pub volume_texture_address_caps: u32,
    pub line_caps: u32,
    pub max_texture_width: u32,
    pub max_texture_height: u32,
    pub max_volume_extent: u32,
    pub max_texture_repeat: u32,
    pub max_texture_aspect_ratio: u32,
    pub max_anisotropy: u32,
    pub max_vertex_w: u32,
    pub guard_band_left: u32,
    pub guard_band_top: u32,
    pub guard_band_right: u32,
    pub guard_band_bottom: u32,
    pub extents_adjust: u32,
    pub stencil_caps: u32,
    pub fvf_caps: u32,
    pub texture_op_caps: u32,
    pub max_texture_blend_stages: u32,
    pub max_simultaneous_textures: u32,
    pub vertex_processing_caps: u32,
    pub max_active_lights: u32,
    pub max_user_clip_planes: u32,
    pub max_vertex_blend_matrices: u32,
    pub max_vertex_blend_matrix_index: u32,
    pub max_point_size: u32,
    pub max_primitive_count: u32,
    pub max_vertex_index: u32,
    pub max_streams: u32,
    pub max_stream_stride: u32,
    pub vertex_shader_version: u32,
    pub max_vertex_shader_const: u32,
    pub pixel_shader_version: u32,
    pub pixel_shader_1x_max_value: u32,
    pub dev_caps2: u32,
    pub max_npatch_tessellation_level: u32,
    pub reserved5: u32,
    pub master_adapter_ordinal: u32,
    pub adapter_ordinal_in_group: u32,
    pub number_of_adapters_in_group: u32,
    pub decl_types: u32,
    pub num_simultaneous_rts: u32,
    pub stretch_rect_filter_caps: u32,
    pub vs20_caps: VertexShaderCaps20,
    pub ps20_caps: PixelShaderCaps20,
    pub vertex_texture_filter_caps: u32,
    pub max_vshader_instructions_executed: u32,
    pub max_pshader_instructions_executed: u32,
    pub max_vertex_shader_30_instruction_slots: u32,
    pub max_pixel_shader_30_instruction_slots: u32,
}

/// A colour of four single-precision channels, as bit patterns.
#[derive(Debug, Copy, Clone, PartialEq, Eq, Structural)]
pub struct ColorValue {
    pub r: u32,
    pub g: u32,
    pub b: u32,
    pub a: u32,
}

/// Material of the fixed-function lighting model. `power` is a bit pattern.
#[derive(Debug, Copy, Clone, PartialEq, Eq, Structural)]
pub struct Material {
    pub diffuse: ColorValue,
    pub ambient: ColorValue,
    pub specular: ColorValue,
    pub emissive: ColorValue,
    pub power: u32,
}

/// A four by four matrix of single-precision numbers in row-major order, as
/// bit patterns.
#[derive(Debug, Copy, Clone, PartialEq, Eq)]
pub struct Matrix {
    pub m: [u32; 16],
}

/// What an adapter tells of itself.
#[derive(Debug, PartialEq, Eq)]
pub struct AdapterIdentifier {
    pub driver: String,
    pub description: String,
    pub device_name: String,
    pub driver_version: u64,
    pub vendor_id: u32,
    pub device_id: u32,
    pub sub_sys_id: u32,
    pub revision: u32,
    pub whql_level: u32,
}

} // verus!
