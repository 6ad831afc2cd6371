//! Physical graphics adapters.

use std::collections::HashMap;
use vstd::prelude::*;
use vstd::string::StringExecFns;
use crate::abi::d3d11;
use crate::abi::d3d9;
use crate::abi::d3d9::{AdapterIdentifier, Caps, DisplayMode, PixelShaderCaps20, VertexShaderCaps20};
use crate::abi::dxgi::{AdapterDesc, ModeDesc, OutputDesc};
use crate::abi::{FLOAT_256, FLOAT_EIGHT, FLOAT_MAX, FLOAT_ZERO};
use crate::base::fmt::{display_mode_format, is_display_mode_format};
use crate::base::format::{resource_format_of, D3DFormatExt};
use crate::base::str::{is_not_nul, push_char, utf16_decode_lossy, wstr_to_string};

verus! {

/// A flag word with every flag set.
pub const ALL_BITS: u32 = 0xFFFF_FFFF;

/// The capabilities of the second word that are supported: mip maps are
/// generated, gamma is calibrated and applied in full screen mode,
/// resources are managed, and textures can be dynamic.
pub const SUPPORTED_CAPS2: u32 = 0x7012_0000;

/// The capabilities of the third word that are supported: alpha in full
/// screen mode, copies to video and to system memory, and presentation
/// from linear to gamma-corrected colour.
pub const SUPPORTED_CAPS3: u32 = 0x0000_03A0;

/// Every texture capability but the one that says that projected bump
/// environment lookups are missing.
pub const SUPPORTED_TEXTURE_CAPS: u32 = 0xFFDF_FFFF;

/// What was found lacking when an adapter was looked at. Each is worth a
/// line in the log.
#[derive(Debug, Copy, Clone, PartialEq, Eq, Structural)]
pub struct AdapterNotes {
    /// No output is attached to the adapter.
    pub no_output: bool,
    /// The adapter does not support all of the features of the modern
    /// interface.
    pub limited_features: bool,
}

/// The capabilities of the device of the adapter with the given ordinal.
/// The modern device can do all that the legacy interface can ask for, so
/// nearly every flag is set, and the limits are those that modern hardware
/// guarantees.
pub open spec fn caps_of(index: u32) -> Caps {
    Caps {
        device_type: d3d9::D3DDEVTYPE_HAL,
        adapter_ordinal: index,
        caps: 0,
        caps2: SUPPORTED_CAPS2,
        caps3: SUPPORTED_CAPS3,
        presentation_intervals: ALL_BITS,
        cursor_caps: ALL_BITS,
        dev_caps: ALL_BITS,
        primitive_misc_caps: ALL_BITS,
        raster_caps: ALL_BITS,
        z_cmp_caps: ALL_BITS,
        src_blend_caps: ALL_BITS,
        dest_blend_caps: ALL_BITS,
        alpha_cmp_caps: ALL_BITS,
        shade_caps: ALL_BITS,
        texture_caps: SUPPORTED_TEXTURE_CAPS,
        texture_filter_caps: ALL_BITS,
        cube_texture_filter_caps: ALL_BITS,
        volume_texture_filter_caps: ALL_BITS,
        texture_address_caps: ALL_BITS,
        volume_texture_address_caps: ALL_BITS,
        line_caps: ALL_BITS,
        max_texture_width: 16384,
        max_texture_height: 16384,
        max_volume_extent: 2048,
        max_texture_repeat: 8192,
        max_texture_aspect_ratio: 16384,
        max_anisotropy: 16,
        max_vertex_w: FLOAT_MAX,
        guard_band_left: FLOAT_ZERO,
        guard_band_top: FLOAT_ZERO,
        guard_band_right: FLOAT_ZERO,
        guard_band_bottom: FLOAT_ZERO,
        extents_adjust: FLOAT_ZERO,
        stencil_caps: ALL_BITS,
        fvf_caps: ALL_BITS,
        texture_op_caps: ALL_BITS,
        max_texture_blend_stages: ALL_BITS,
        max_simultaneous_textures: ALL_BITS,
        vertex_processing_caps: ALL_BITS,
        max_active_lights: ALL_BITS,
        max_user_clip_planes: ALL_BITS,
        max_vertex_blend_matrices: ALL_BITS,
        max_vertex_blend_matrix_index: ALL_BITS,
        max_point_size: FLOAT_MAX,
        max_primitive_count: ALL_BITS,
        max_vertex_index: ALL_BITS,
        max_streams: 16,
        max_stream_stride: 0x8000_0000,
        vertex_shader_version: 0xFFFE_0300,
        max_vertex_shader_const: 0x0001_0000,
        pixel_shader_version: 0xFFFF_0300,
        pixel_shader_1x_max_value: FLOAT_EIGHT,
        dev_caps2: ALL_BITS,
        max_npatch_tessellation_level: FLOAT_256,
        reserved5: 0,
        master_adapter_ordinal: index,
        adapter_ordinal_in_group: 0,
        number_of_adapters_in_group: 1,
        decl_types: ALL_BITS,
        num_simultaneous_rts: 8,
        stretch_rect_filter_caps: ALL_BITS,
        vs20_caps: VertexShaderCaps20 {
            caps: ALL_BITS,
            dynamic_flow_control_depth: 24,
            num_temps: 16384,
            static_flow_control_depth: i32::MIN,
        },
        ps20_caps: PixelShaderCaps20 {
            caps: ALL_BITS,
            dynamic_flow_control_depth: 24,
            num_temps: -16385i32,
            static_flow_control_depth: i32::MIN,
            num_instruction_slots: i32::MIN,
        },
        vertex_texture_filter_caps: ALL_BITS,
        max_vshader_instructions_executed: ALL_BITS,
        max_pshader_instructions_executed: ALL_BITS,
        max_vertex_shader_30_instruction_slots: 32768,
        max_pixel_shader_30_instruction_slots: 32768,
    }
}

/// The decimal digits of a number.
pub open spec fn decimal_digits(n: nat) -> Seq<char>
    decreases n,
{
    if n < 10 {
        seq![(0x30 + n) as char]
    } else {
        decimal_digits(n / 10).push((0x30 + n % 10) as char)
    }
}

/// The refresh rate of a display mode in whole hertz; zero where the rate is
/// not known.
pub open spec fn refresh_rate_of(mode: ModeDesc) -> u32 {
    if mode.refresh_rate.denominator == 0 {
        0
    } else {
        mode.refresh_rate.numerator / mode.refresh_rate.denominator
    }
}

/// A display mode of an output as the legacy interface reports it for a
/// format.
pub open spec fn display_mode_of(mode: ModeDesc, fmt: u32) -> DisplayMode {
    DisplayMode {
        width: mode.width,
        height: mode.height,
        refresh_rate: refresh_rate_of(mode),
        format: fmt,
    }
}

/// The support that a kind of resource needs of a format: that the format
/// can be used for the kind of modern resource that stands for it. A number
/// that names no kind of resource needs nothing.
pub open spec fn resource_support_of(rt: u32) -> u32 {
    if rt == d3d9::D3DRTYPE_SURFACE || rt == d3d9::D3DRTYPE_TEXTURE {
        d3d11::D3D11_FORMAT_SUPPORT_TEXTURE2D
    } else if rt == d3d9::D3DRTYPE_VOLUME || rt == d3d9::D3DRTYPE_VOLUMETEXTURE {
        d3d11::D3D11_FORMAT_SUPPORT_TEXTURE3D
    } else if rt == d3d9::D3DRTYPE_CUBETEXTURE {
        d3d11::D3D11_FORMAT_SUPPORT_TEXTURECUBE
    } else if rt == d3d9::D3DRTYPE_VERTEXBUFFER {
        d3d11::D3D11_FORMAT_SUPPORT_IA_VERTEX_BUFFER
    } else if rt == d3d9::D3DRTYPE_INDEXBUFFER {
        d3d11::D3D11_FORMAT_SUPPORT_IA_INDEX_BUFFER
    } else {
        0
    }
}

/// Whether a usage is asked for and the format lacks the support that it
/// needs.
pub open spec fn lacks_usage_support(usage: u32, support: u32, flag: u32, needed: u32) -> bool {
    usage & flag != 0 && support & needed == 0
}

/// Whether the support that the modern device reports for a format is
/// enough for a kind of resource and a usage. A format of which the device
/// could not tell its support is not supported.
pub open spec fn format_is_supported(rt: u32, usage: u32, result: i32, support: u32) -> bool {
    &&& result == 0
    &&& resource_support_of(rt) != 0 ==> support & resource_support_of(rt) != 0
    &&& !lacks_usage_support(
        usage,
        support,
        d3d9::D3DUSAGE_AUTOGENMIPMAP,
        d3d11::D3D11_FORMAT_SUPPORT_MIP_AUTOGEN,
    )
    &&& !lacks_usage_support(
        usage,
        support,
        d3d9::D3DUSAGE_RENDERTARGET,
        d3d11::D3D11_FORMAT_SUPPORT_RENDER_TARGET,
    )
    &&& !lacks_usage_support(
        usage,
        support,
        d3d9::D3DUSAGE_DEPTHSTENCIL,
        d3d11::D3D11_FORMAT_SUPPORT_DEPTH_STENCIL,
    )
}

/// The number of elements of a list as the legacy interface reports it: in
/// 32 bits.
pub open spec fn count_of(len: nat) -> u32 {
    (len % 0x1_0000_0000) as u32
}

/// Appends the decimal digits of a number to a string.
fn push_decimal(s: &mut String, n: u32)
    ensures
        final(s)@ == old(s)@ + decimal_digits(n as nat),
    decreases n,
{
    if n >= 10 {
        push_decimal(s, n / 10);
    }
    let digit: u8 = 0x30 + (n % 10) as u8;
    let ghost before = s@;
    push_char(s, digit as char);
    assert(s@ == before + seq![digit as char]);
}

/// Returns the capabilities of the device of the adapter with the given
/// ordinal.
pub fn device_caps(index: u32) -> (res: Caps)
    ensures
        res == caps_of(index),
{
    Caps {
        device_type: d3d9::D3DDEVTYPE_HAL,
        adapter_ordinal: index,
        // Reading the scanline is the one capability of this word, and is not implemented.
        caps: 0,
        caps2: SUPPORTED_CAPS2,
        caps3: SUPPORTED_CAPS3,
        // A lot of these features are flag words, so we set all bits.
        presentation_intervals: ALL_BITS,
        cursor_caps: ALL_BITS,
        dev_caps: ALL_BITS,
        primitive_misc_caps: ALL_BITS,
        raster_caps: ALL_BITS,
        z_cmp_caps: ALL_BITS,
        src_blend_caps: ALL_BITS,
        dest_blend_caps: ALL_BITS,
        alpha_cmp_caps: ALL_BITS,
        shade_caps: ALL_BITS,
        // This word holds one flag that indicates lack of support, so we mask it.
        texture_caps: SUPPORTED_TEXTURE_CAPS,
        texture_filter_caps: ALL_BITS,
        cube_texture_filter_caps: ALL_BITS,
        volume_texture_filter_caps: ALL_BITS,
        texture_address_caps: ALL_BITS,
        volume_texture_address_caps: ALL_BITS,
        line_caps: ALL_BITS,
        // The following limits are guaranteed on modern hardware.
        max_texture_width: 16384,
        max_texture_height: 16384,
        max_volume_extent: 2048,
        max_texture_repeat: 8192,
        max_texture_aspect_ratio: 16384,
        max_anisotropy: 16,
        // The depth buffer is at most a 32-bit float.
        max_vertex_w: FLOAT_MAX,
        // Modern hardware has really big guard bands.
        guard_band_left: FLOAT_ZERO,
        guard_band_top: FLOAT_ZERO,
        guard_band_right: FLOAT_ZERO,
        guard_band_bottom: FLOAT_ZERO,
        extents_adjust: FLOAT_ZERO,
        stencil_caps: ALL_BITS,
        fvf_caps: ALL_BITS,
        texture_op_caps: ALL_BITS,
        // These are pretty much unlimited on modern hardware.
        max_texture_blend_stages: ALL_BITS,
        max_simultaneous_textures: ALL_BITS,
        vertex_processing_caps: ALL_BITS,
        max_active_lights: ALL_BITS,
        max_user_clip_planes: ALL_BITS,
        max_vertex_blend_matrices: ALL_BITS,
        max_vertex_blend_matrix_index: ALL_BITS,
        max_point_size: FLOAT_MAX,
        max_primitive_count: ALL_BITS,
        max_vertex_index: ALL_BITS,
        max_streams: 16,
        max_stream_stride: 0x8000_0000,
        vertex_shader_version: 0xFFFE_0300,
        max_vertex_shader_const: 0x0001_0000,
        pixel_shader_version: 0xFFFF_0300,
        pixel_shader_1x_max_value: FLOAT_EIGHT,
        dev_caps2: ALL_BITS,
        max_npatch_tessellation_level: FLOAT_256,
        reserved5: 0,
        master_adapter_ordinal: index,
        adapter_ordinal_in_group: 0,
        number_of_adapters_in_group: 1,
        decl_types: ALL_BITS,
        num_simultaneous_rts: 8,
        stretch_rect_filter_caps: ALL_BITS,
        vs20_caps: VertexShaderCaps20 {
            caps: ALL_BITS,
            dynamic_flow_control_depth: 24,
            num_temps: 16384,
            static_flow_control_depth: i32::MIN,
        },
        ps20_caps: PixelShaderCaps20 {
            caps: ALL_BITS,
            dynamic_flow_control_depth: 24,
            num_temps: -16385i32,
            static_flow_control_depth: i32::MIN,
            num_instruction_slots: i32::MIN,
        },
        vertex_texture_filter_caps: ALL_BITS,
        max_vshader_instructions_executed: ALL_BITS,
        max_pshader_instructions_executed: ALL_BITS,
        max_vertex_shader_30_instruction_slots: 32768,
        max_pixel_shader_30_instruction_slots: 32768,
    }
}

/// This class represents a physical graphics adapter.
pub struct Adapter {
    // Ordinal of this adapter in the list of adapters.
    index: u32,
    // The adapter of the modern interface.
    adapter: usize,
    // The display attached to this device.
    output: Option<usize>,
    // Cache the display's properties.
    output_desc: Option<OutputDesc>,
    // Caches the supported display modes compatible with a certain format.
    mode_cache: HashMap<u32, Vec<ModeDesc>>,
    // With the modern interface, obtaining a device's capabilities or
    // checking for texture format support requires us to create the device
    // first.
    device: usize,
}

/// What an [`Adapter`] holds.
pub struct AdapterView {
    /// Ordinal of the adapter in the list of adapters.
    pub index: u32,
    /// The adapter of the modern interface.
    pub adapter: usize,
    /// The display attached to the adapter, if there is one.
    pub output: Option<usize>,
    /// The properties of that display.
    pub output_desc: Option<OutputDesc>,
    /// The display modes that were listed so far, by format.
    pub mode_cache: Map<u32, Seq<ModeDesc>>,
    /// The device of the modern interface.
    pub device: usize,
}

impl AdapterView {
    /// Whether the display modes of a format can be asked for: the adapter
    /// has a display, and the format is one of a display mode.
    pub open spec fn lists_modes(self, fmt: u32) -> bool {
        self.output is Some && display_mode_format(fmt)
    }

    /// The adapter after the display modes of a format are stored: nothing
    /// is stored for an adapter without a display, nor what is stored
    /// already.
    pub open spec fn with_modes(self, fmt: u32, modes: Seq<ModeDesc>) -> AdapterView {
        if self.output is Some && !self.mode_cache.contains_key(fmt) {
            AdapterView { mode_cache: self.mode_cache.insert(fmt, modes), ..self }
        } else {
            self
        }
    }

    /// The display modes of a format, as far as they are known: those that
    /// were listed, and none before that.
    pub open spec fn modes(self, fmt: u32) -> Seq<ModeDesc> {
        if self.lists_modes(fmt) && self.mode_cache.contains_key(fmt) {
            self.mode_cache[fmt]
        } else {
            Seq::empty()
        }
    }
}

impl View for Adapter {
    type V = AdapterView;

    closed spec fn view(&self) -> AdapterView {
        AdapterView {
            index: self.index,
            adapter: self.adapter,
            output: self.output,
            output_desc: self.output_desc,
            mode_cache: Map::new(
                |fmt: u32| self.mode_cache@.contains_key(fmt),
                |fmt: u32| self.mode_cache@[fmt]@,
            ),
            device: self.device,
        }
    }
}

impl Adapter {
    /// Creates a new adapter from what was found of it: the first output,
    /// if enumerating it went well, the description of that output, the
    /// device that was created for the adapter and the feature level of
    /// that device. Only one monitor per adapter is supported.
    pub fn new(
        index: u32,
        adapter: usize,
        output_result: i32,
        output: usize,
        output_desc: OutputDesc,
        device: usize,
        feature_level: u32,
    ) -> (res: (Self, AdapterNotes))
        ensures
            res.0@ == (AdapterView {
                index,
                adapter,
                output: if output_result == 0 {
                    Some(output)
                } else {
                    None
                },
                output_desc: if output_result == 0 {
                    Some(output_desc)
                } else {
                    None
                },
                mode_cache: Map::empty(),
                device,
            }),
            res.1 == (AdapterNotes {
                no_output: output_result != 0,
                limited_features: feature_level < d3d11::D3D_FEATURE_LEVEL_11_0,
            }),
    {
        // Some adapters might have no outputs attached.
        let has_output = output_result == 0;

        let this = Self {
            index,
            adapter,
            output: if has_output {
                Some(output)
            } else {
                None
            },
            output_desc: if has_output {
                Some(output_desc)
            } else {
                None
            },
            mode_cache: HashMap::new(),
            device,
        };
        assert(this@.mode_cache =~= Map::empty());

        let notes = AdapterNotes {
            no_output: !has_output,
            limited_features: feature_level < d3d11::D3D_FEATURE_LEVEL_11_0,
        };

        (this, notes)
    }

    /// Ordinal of this adapter in the list of adapters.
    pub fn index(&self) -> (res: u32)
        ensures
            res == self@.index,
    {
        self.index
    }

    /// The adapter of the modern interface.
    pub fn handle(&self) -> (res: usize)
        ensures
            res == self@.adapter,
    {
        self.adapter
    }

    /// The display attached to this adapter, if there is one.
    pub fn output(&self) -> (res: Option<usize>)
        ensures
            res == self@.output,
    {
        self.output
    }

    /// The device of the modern interface that was created for this
    /// adapter.
    pub fn device(&self) -> (res: usize)
        ensures
            res == self@.device,
    {
        self.device
    }

    /// Retrieves a description of this adapter, from what the platform
    /// tells of it.
    pub fn identifier(&self, desc: &AdapterDesc) -> (res: AdapterIdentifier)
        ensures
            res.driver@ == "D3D 9-to-11 Driver"@,
            res.description@ == utf16_decode_lossy(desc.description@).filter(
                |c: char| is_not_nul(c),
            ) + " (D3D 9-to-11 Device)"@,
            res.device_name@ == "DISPLAY"@ + decimal_digits(self@.index as nat),
            res.driver_version == 1,
            res.vendor_id == desc.vendor_id,
            res.device_id == desc.device_id,
            res.sub_sys_id == desc.sub_sys_id,
            res.revision == desc.revision,
            res.whql_level == 1,
    {
        // Internal identifier of the driver.
        let driver = String::from_str("D3D 9-to-11 Driver");

        // Human readable device description.
        let mut description = wstr_to_string(desc.description.as_slice());
        description.append(" (D3D 9-to-11 Device)");

        // Fake device name.
        let mut device_name = String::from_str("DISPLAY");
        push_decimal(&mut device_name, self.index);

        AdapterIdentifier {
            driver,
            description,
            device_name,
            driver_version: 1,
            // These fields are passed-through.
            vendor_id: desc.vendor_id,
            device_id: desc.device_id,
            sub_sys_id: desc.sub_sys_id,
            revision: desc.revision,
            whql_level: 1,
        }
    }

    /// Says which list of display modes is to be retrieved before the modes
    /// of a format are asked for: that of the modern format that is given,
    /// or none if the list is there already or there is none to get.
    pub fn uncached_mode_list(&self, fmt: u32) -> (res: Option<u32>)
        ensures
            res == (if self@.lists_modes(fmt) && !self@.mode_cache.contains_key(fmt) {
                resource_format_of(fmt)
            } else {
                None
            }),
            self@.lists_modes(fmt) && !self@.mode_cache.contains_key(fmt) ==> res is Some,
    {
        broadcast use vstd::std_specs::hash::group_hash_axioms;

        if self.output.is_none() || !is_display_mode_format(fmt) {
            return None;
        }

        // Nothing to do if already in cache.
        if self.mode_cache.contains_key(&fmt) {
            return None;
        }

        fmt.checked_to_dxgi()
    }

    /// Retrieves the number of display modes which match the requested format.
    pub fn mode_count(&self, fmt: u32) -> (res: u32)
        ensures
            res == count_of(self@.modes(fmt).len()),
    {
        broadcast use vstd::std_specs::hash::group_hash_axioms;

        if self.output.is_none() || !is_display_mode_format(fmt) {
            return 0;
        }

        match self.mode_cache.get(&fmt) {
            Some(modes) => (modes.len() as u64 % 0x1_0000_0000) as u32,
            None => 0,
        }
    }

    /// Retrieves the display mode of a certain index.
    pub fn mode(&self, fmt: u32, index: u32) -> (res: Option<DisplayMode>)
        ensures
            res == (if index < self@.modes(fmt).len() {
                Some(display_mode_of(self@.modes(fmt)[index as int], fmt))
            } else {
                None
            }),
    {
        broadcast use vstd::std_specs::hash::group_hash_axioms;

        if self.output.is_none() || !is_display_mode_format(fmt) {
            return None;
        }

        // Cache should contain an empty vector even if a format is not supported.
        let modes = match self.mode_cache.get(&fmt) {
            Some(modes) => modes,
            None => {
                return None;
            },
        };

        if (index as usize) < modes.len() {
            let mode = modes[index as usize];
            // Fill in the structure if it was found.
            let rf = mode.refresh_rate;
            Some(
                DisplayMode {
                    width: mode.width,
                    height: mode.height,
                    refresh_rate: if rf.denominator == 0 {
                        0
                    } else {
                        rf.numerator / rf.denominator
                    },
                    format: fmt,
                },
            )
        } else {
            None
        }
    }

    /// Checks if the support that the modern device reports for a format is
    /// enough for a kind of resource and a usage.
    pub fn is_format_supported(&self, rt: u32, usage: u32, result: i32, support: u32) -> (res: bool)
        ensures
            res == format_is_supported(rt, usage, result, support),
    {
        if result != 0 {
            return false;
        }

        // First we have to check the resource type.
        let needed = if rt == d3d9::D3DRTYPE_SURFACE || rt == d3d9::D3DRTYPE_TEXTURE {
            d3d11::D3D11_FORMAT_SUPPORT_TEXTURE2D
        } else if rt == d3d9::D3DRTYPE_VOLUME || rt == d3d9::D3DRTYPE_VOLUMETEXTURE {
            d3d11::D3D11_FORMAT_SUPPORT_TEXTURE3D
        } else if rt == d3d9::D3DRTYPE_CUBETEXTURE {
            d3d11::D3D11_FORMAT_SUPPORT_TEXTURECUBE
        } else if rt == d3d9::D3DRTYPE_VERTEXBUFFER {
            d3d11::D3D11_FORMAT_SUPPORT_IA_VERTEX_BUFFER
        } else if rt == d3d9::D3DRTYPE_INDEXBUFFER {
            d3d11::D3D11_FORMAT_SUPPORT_IA_INDEX_BUFFER
        } else {
            0
        };

        let lacks_support = (needed != 0 && support & needed == 0)
            // Now we also need to check the proper usage.
            || (usage & d3d9::D3DUSAGE_AUTOGENMIPMAP != 0 && support
            & d3d11::D3D11_FORMAT_SUPPORT_MIP_AUTOGEN == 0) || (usage & d3d9::D3DUSAGE_RENDERTARGET
            != 0 && support & d3d11::D3D11_FORMAT_SUPPORT_RENDER_TARGET == 0) || (usage
            & d3d9::D3DUSAGE_DEPTHSTENCIL != 0 && support & d3d11::D3D11_FORMAT_SUPPORT_DEPTH_STENCIL
            == 0);

        !lacks_support
    }

    /// Returns the capabilities of this device.
    pub fn caps(&self) -> (res: Caps)
        ensures
            res == caps_of(self@.index),
    {
        device_caps(self.index)
    }

    /// Returns the (primary) monitor of this adapter, or zero.
    pub fn monitor(&self) -> (res: usize)
        ensures
            res == (match self@.output_desc {
                Some(desc) => desc.monitor,
                None => 0,
            }),
    {
        match self.output_desc {
            Some(desc) => desc.monitor,
            None => 0,
        }
    }

    /// Stores the display modes of the output for a format, unless they
    /// are stored already or there are none to store. Even an empty list is
    /// stored, to tell that the modes were asked for.
    pub fn cache_display_modes(&mut self, fmt: u32, modes: Vec<ModeDesc>)
        ensures
            final(self)@ == old(self)@.with_modes(fmt, modes@),
    {
        broadcast use vstd::std_specs::hash::group_hash_axioms;

        if self.output.is_none() {
            return;
        }

        // Nothing to do if already in cache.
        if self.mode_cache.contains_key(&fmt) {
            return;
        }

        let ghost before = self.mode_cache@;
        self.mode_cache.insert(fmt, modes);
        assert(self@.mode_cache =~= old(self)@.mode_cache.insert(fmt, modes@));
    }
}

/// The combined capability words are made of the flags that they are
/// named after, and the texture capabilities lack exactly the one flag that
/// stands for a missing feature.
pub proof fn capability_words()
    by (bit_vector)
    ensures
        SUPPORTED_TEXTURE_CAPS == !d3d9::D3DPTEXTURECAPS_NOPROJECTEDBUMPENV,
        SUPPORTED_CAPS2 == d3d9::D3DCAPS2_CANAUTOGENMIPMAP | d3d9::D3DCAPS2_CANCALIBRATEGAMMA
            | d3d9::D3DCAPS2_FULLSCREENGAMMA | d3d9::D3DCAPS2_CANMANAGERESOURCE
            | d3d9::D3DCAPS2_DYNAMICTEXTURES,
        SUPPORTED_CAPS3 == d3d9::D3DCAPS3_ALPHA_FULLSCREEN_FLIP_OR_DISCARD
            | d3d9::D3DCAPS3_COPY_TO_VIDMEM | d3d9::D3DCAPS3_COPY_TO_SYSTEMMEM
            | d3d9::D3DCAPS3_LINEAR_TO_SRGB_PRESENTATION,
        0xFFFE_0300u32 == 0xFFFE_0000u32 | (3u32 << 8u32),
        0xFFFF_0300u32 == 0xFFFF_0000u32 | (3u32 << 8u32),
{
}

/// The capability descriptor of every adapter: the device renders in
/// hardware, has eight render targets, anisotropy of sixteen and textures
/// of up to 16384 texels, supports the third shader model, and cannot read
/// the scanline.
pub proof fn caps_of_every_adapter(index: u32)
    ensures
        caps_of(index).device_type == d3d9::D3DDEVTYPE_HAL,
        caps_of(index).adapter_ordinal == index,
        caps_of(index).caps == 0,
        caps_of(index).texture_caps == SUPPORTED_TEXTURE_CAPS,
        caps_of(index).num_simultaneous_rts == 8,
        caps_of(index).max_anisotropy == 16,
        caps_of(index).max_texture_width == 16384,
        caps_of(index).max_texture_height == 16384,
        caps_of(index).vertex_shader_version == 0xFFFE_0300,
        caps_of(index).pixel_shader_version == 0xFFFF_0300,
{
}

} // verus!
