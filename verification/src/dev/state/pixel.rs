//! State of the pixel stage.

use vstd::array::spec_array_update;
use vstd::prelude::*;
use crate::abi::d3d9;
use crate::dev::state::unit::{sampler_default, stage_default, SamplerState, TextureState};

verus! {

/// Number of render states that the pixel block tracks.
pub const PIXEL_RENDER_STATES: usize = 69;

/// Number of texture units of the pixel stage.
pub const PIXEL_SAMPLERS: usize = 16;

/// The place of a render state in the pixel block, for the render states
/// that the block tracks.
pub open spec fn pixel_render_state_slot(state: u32) -> Option<int> {
    if state == d3d9::D3DRS_ZENABLE {
        Some(0)
    } else if state == d3d9::D3DRS_FILLMODE {
        Some(1)
    } else if state == d3d9::D3DRS_SHADEMODE {
        Some(2)
    } else if state == d3d9::D3DRS_ZWRITEENABLE {
        Some(3)
    } else if state == d3d9::D3DRS_ALPHATESTENABLE {
        Some(4)
    } else if state == d3d9::D3DRS_LASTPIXEL {
        Some(5)
    } else if state == d3d9::D3DRS_SRCBLEND {
        Some(6)
    } else if state == d3d9::D3DRS_DESTBLEND {
        Some(7)
    } else if state == d3d9::D3DRS_ZFUNC {
        Some(8)
    } else if state == d3d9::D3DRS_ALPHAREF {
        Some(9)
    } else if state == d3d9::D3DRS_ALPHAFUNC {
        Some(10)
    } else if state == d3d9::D3DRS_DITHERENABLE {
        Some(11)
    } else if state == d3d9::D3DRS_FOGCOLOR {
        Some(12)
    } else if state == d3d9::D3DRS_FOGSTART {
        Some(13)
    } else if state == d3d9::D3DRS_FOGEND {
        Some(14)
    } else if state == d3d9::D3DRS_FOGDENSITY {
        Some(15)
    } else if state == d3d9::D3DRS_ALPHABLENDENABLE {
        Some(16)
    } else if state == d3d9::D3DRS_DEPTHBIAS {
        Some(17)
    } else if state == d3d9::D3DRS_STENCILENABLE {
        Some(18)
    } else if state == d3d9::D3DRS_STENCILFAIL {
        Some(19)
    } else if state == d3d9::D3DRS_STENCILZFAIL {
        Some(20)
    } else if state == d3d9::D3DRS_STENCILPASS {
        Some(21)
    } else if state == d3d9::D3DRS_STENCILFUNC {
        Some(22)
    } else if state == d3d9::D3DRS_STENCILREF {
        Some(23)
    } else if state == d3d9::D3DRS_STENCILMASK {
        Some(24)
    } else if state == d3d9::D3DRS_STENCILWRITEMASK {
        Some(25)
    } else if state == d3d9::D3DRS_TEXTUREFACTOR {
        Some(26)
    } else if state == d3d9::D3DRS_WRAP0 {
        Some(27)
    } else if state == d3d9::D3DRS_WRAP1 {
        Some(28)
    } else if state == d3d9::D3DRS_WRAP2 {
        Some(29)
    } else if state == d3d9::D3DRS_WRAP3 {
        Some(30)
    } else if state == d3d9::D3DRS_WRAP4 {
        Some(31)
    } else if state == d3d9::D3DRS_WRAP5 {
        Some(32)
    } else if state == d3d9::D3DRS_WRAP6 {
        Some(33)
    } else if state == d3d9::D3DRS_WRAP7 {
        Some(34)
    } else if state == d3d9::D3DRS_WRAP8 {
        Some(35)
    } else if state == d3d9::D3DRS_WRAP9 {
        Some(36)
    } else if state == d3d9::D3DRS_WRAP10 {
        Some(37)
    } else if state == d3d9::D3DRS_WRAP11 {
        Some(38)
    } else if state == d3d9::D3DRS_WRAP12 {
        Some(39)
    } else if state == d3d9::D3DRS_WRAP13 {
        Some(40)
    } else if state == d3d9::D3DRS_WRAP14 {
        Some(41)
    } else if state == d3d9::D3DRS_WRAP15 {
        Some(42)
    } else if state == d3d9::D3DRS_LOCALVIEWER {
        Some(43)
    } else if state == d3d9::D3DRS_EMISSIVEMATERIALSOURCE {
        Some(44)
    } else if state == d3d9::D3DRS_AMBIENTMATERIALSOURCE {
        Some(45)
    } else if state == d3d9::D3DRS_DIFFUSEMATERIALSOURCE {
        Some(46)
    } else if state == d3d9::D3DRS_SPECULARMATERIALSOURCE {
        Some(47)
    } else if state == d3d9::D3DRS_COLORWRITEENABLE {
        Some(48)
    } else if state == d3d9::D3DRS_BLENDOP {
        Some(49)
    } else if state == d3d9::D3DRS_SCISSORTESTENABLE {
        Some(50)
    } else if state == d3d9::D3DRS_SLOPESCALEDEPTHBIAS {
        Some(51)
    } else if state == d3d9::D3DRS_ANTIALIASEDLINEENABLE {
        Some(52)
    } else if state == d3d9::D3DRS_TWOSIDEDSTENCILMODE {
        Some(53)
    } else if state == d3d9::D3DRS_CCW_STENCILFAIL {
        Some(54)
    } else if state == d3d9::D3DRS_CCW_STENCILZFAIL {
        Some(55)
    } else if state == d3d9::D3DRS_CCW_STENCILPASS {
        Some(56)
    } else if state == d3d9::D3DRS_CCW_STENCILFUNC {
        Some(57)
    } else if state == d3d9::D3DRS_COLORWRITEENABLE1 {
        Some(58)
    } else if state == d3d9::D3DRS_COLORWRITEENABLE2 {
        Some(59)
    } else if state == d3d9::D3DRS_COLORWRITEENABLE3 {
        Some(60)
    } else if state == d3d9::D3DRS_BLENDFACTOR {
        Some(61)
    } else if state == d3d9::D3DRS_SRGBWRITEENABLE {
        Some(62)
    } else if state == d3d9::D3DRS_SEPARATEALPHABLENDENABLE {
        Some(63)
    } else if state == d3d9::D3DRS_SRCBLENDALPHA {
        Some(64)
    } else if state == d3d9::D3DRS_DESTBLENDALPHA {
        Some(65)
    } else if state == d3d9::D3DRS_BLENDOPALPHA {
        Some(66)
    } else if state == d3d9::D3DRS_FOGENABLE {
        Some(67)
    } else if state == d3d9::D3DRS_SPECULARENABLE {
        Some(68)
    } else {
        None
    }
}

/// The value of a render state of the pixel block before it is first set.
pub open spec fn pixel_render_state_default(state: u32) -> u32 {
    if state == d3d9::D3DRS_ZENABLE {
        d3d9::D3DZB_TRUE
    } else if state == d3d9::D3DRS_FILLMODE {
        d3d9::D3DFILL_SOLID
    } else if state == d3d9::D3DRS_SHADEMODE {
        d3d9::D3DSHADE_GOURAUD
    } else if state == d3d9::D3DRS_ZWRITEENABLE {
        1
    } else if state == d3d9::D3DRS_ALPHATESTENABLE {
        0
    } else if state == d3d9::D3DRS_LASTPIXEL {
        1
    } else if state == d3d9::D3DRS_SRCBLEND {
        d3d9::D3DBLEND_ONE
    } else if state == d3d9::D3DRS_DESTBLEND {
        d3d9::D3DBLEND_ZERO
    } else if state == d3d9::D3DRS_ZFUNC {
        d3d9::D3DCMP_LESSEQUAL
    } else if state == d3d9::D3DRS_ALPHAREF {
        0
    } else if state == d3d9::D3DRS_ALPHAFUNC {
        d3d9::D3DCMP_ALWAYS
    } else if state == d3d9::D3DRS_DITHERENABLE {
        0
    } else if state == d3d9::D3DRS_FOGCOLOR {
        0
    } else if state == d3d9::D3DRS_FOGSTART {
        0
    } else if state == d3d9::D3DRS_FOGEND {
        1
    } else if state == d3d9::D3DRS_FOGDENSITY {
        1
    } else if state == d3d9::D3DRS_ALPHABLENDENABLE {
        0
    } else if state == d3d9::D3DRS_DEPTHBIAS {
        0
    } else if state == d3d9::D3DRS_STENCILENABLE {
        0
    } else if state == d3d9::D3DRS_STENCILFAIL {
        d3d9::D3DSTENCILOP_KEEP
    } else if state == d3d9::D3DRS_STENCILZFAIL {
        d3d9::D3DSTENCILOP_KEEP
    } else if state == d3d9::D3DRS_STENCILPASS {
        d3d9::D3DSTENCILOP_KEEP
    } else if state == d3d9::D3DRS_STENCILFUNC {
        d3d9::D3DCMP_ALWAYS
    } else if state == d3d9::D3DRS_STENCILREF {
        0
    } else if state == d3d9::D3DRS_STENCILMASK {
        0xFFFF_FFFF
    } else if state == d3d9::D3DRS_STENCILWRITEMASK {
        0xFFFF_FFFF
    } else if state == d3d9::D3DRS_TEXTUREFACTOR {
        0xFFFF_FFFF
    } else if state == d3d9::D3DRS_WRAP0 {
        0
    } else if state == d3d9::D3DRS_WRAP1 {
        0
    } else if state == d3d9::D3DRS_WRAP2 {
        0
    } else if state == d3d9::D3DRS_WRAP3 {
        0
    } else if state == d3d9::D3DRS_WRAP4 {
        0
    } else if state == d3d9::D3DRS_WRAP5 {
        0
    } else if state == d3d9::D3DRS_WRAP6 {
        0
    } else if state == d3d9::D3DRS_WRAP7 {
        0
    } else if state == d3d9::D3DRS_WRAP8 {
        0
    } else if state == d3d9::D3DRS_WRAP9 {
        0
    } else if state == d3d9::D3DRS_WRAP10 {
        0
    } else if state == d3d9::D3DRS_WRAP11 {
        0
    } else if state == d3d9::D3DRS_WRAP12 {
        0
    } else if state == d3d9::D3DRS_WRAP13 {
        0
    } else if state == d3d9::D3DRS_WRAP14 {
        0
    } else if state == d3d9::D3DRS_WRAP15 {
        0
    } else if state == d3d9::D3DRS_LOCALVIEWER {
        1
    } else if state == d3d9::D3DRS_EMISSIVEMATERIALSOURCE {
        d3d9::D3DMCS_MATERIAL
    } else if state == d3d9::D3DRS_AMBIENTMATERIALSOURCE {
        d3d9::D3DMCS_MATERIAL
    } else if state == d3d9::D3DRS_DIFFUSEMATERIALSOURCE {
        d3d9::D3DMCS_COLOR1
    } else if state == d3d9::D3DRS_SPECULARMATERIALSOURCE {
        d3d9::D3DMCS_COLOR2
    } else if state == d3d9::D3DRS_COLORWRITEENABLE {
        0x0000_000F
    } else if state == d3d9::D3DRS_BLENDOP {
        d3d9::D3DBLENDOP_ADD
    } else if state == d3d9::D3DRS_SCISSORTESTENABLE {
        0
    } else if state == d3d9::D3DRS_SLOPESCALEDEPTHBIAS {
        0
    } else if state == d3d9::D3DRS_ANTIALIASEDLINEENABLE {
        0
    } else if state == d3d9::D3DRS_TWOSIDEDSTENCILMODE {
        0
    } else if state == d3d9::D3DRS_CCW_STENCILFAIL {
        d3d9::D3DSTENCILOP_KEEP
    } else if state == d3d9::D3DRS_CCW_STENCILZFAIL {
        d3d9::D3DSTENCILOP_KEEP
    } else if state == d3d9::D3DRS_CCW_STENCILPASS {
        d3d9::D3DSTENCILOP_KEEP
    } else if state == d3d9::D3DRS_CCW_STENCILFUNC {
        d3d9::D3DCMP_ALWAYS
    } else if state == d3d9::D3DRS_COLORWRITEENABLE1 {
        0x0000_000F
    } else if state == d3d9::D3DRS_COLORWRITEENABLE2 {
        0x0000_000F
    } else if state == d3d9::D3DRS_COLORWRITEENABLE3 {
        0x0000_000F
    } else if state == d3d9::D3DRS_BLENDFACTOR {
        0xFFFF_FFFF
    } else if state == d3d9::D3DRS_SRGBWRITEENABLE {
        0
    } else if state == d3d9::D3DRS_SEPARATEALPHABLENDENABLE {
        0
    } else if state == d3d9::D3DRS_SRCBLENDALPHA {
        d3d9::D3DBLEND_ONE
    } else if state == d3d9::D3DRS_DESTBLENDALPHA {
        d3d9::D3DBLEND_ZERO
    } else if state == d3d9::D3DRS_BLENDOPALPHA {
        d3d9::D3DBLENDOP_ADD
    } else if state == d3d9::D3DRS_FOGENABLE {
        0
    } else if state == d3d9::D3DRS_SPECULARENABLE {
        0
    } else {
        0
    }
}

fn render_state_slot_of(state: u32) -> (res: Option<usize>)
    ensures
        match res {
            Some(slot) => pixel_render_state_slot(state) == Some(slot as int) && slot
                < PIXEL_RENDER_STATES,
            None => pixel_render_state_slot(state) is None,
        },
{
    if state == d3d9::D3DRS_ZENABLE {
        Some(0)
    } else if state == d3d9::D3DRS_FILLMODE {
        Some(1)
    } else if state == d3d9::D3DRS_SHADEMODE {
        Some(2)
    } else if state == d3d9::D3DRS_ZWRITEENABLE {
        Some(3)
    } else if state == d3d9::D3DRS_ALPHATESTENABLE {
        Some(4)
    } else if state == d3d9::D3DRS_LASTPIXEL {
        Some(5)
    } else if state == d3d9::D3DRS_SRCBLEND {
        Some(6)
    } else if state == d3d9::D3DRS_DESTBLEND {
        Some(7)
    } else if state == d3d9::D3DRS_ZFUNC {
        Some(8)
    } else if state == d3d9::D3DRS_ALPHAREF {
        Some(9)
    } else if state == d3d9::D3DRS_ALPHAFUNC {
        Some(10)
    } else if state == d3d9::D3DRS_DITHERENABLE {
        Some(11)
    } else if state == d3d9::D3DRS_FOGCOLOR {
        Some(12)
    } else if state == d3d9::D3DRS_FOGSTART {
        Some(13)
    } else if state == d3d9::D3DRS_FOGEND {
        Some(14)
    } else if state == d3d9::D3DRS_FOGDENSITY {
        Some(15)
    } else if state == d3d9::D3DRS_ALPHABLENDENABLE {
        Some(16)
    } else if state == d3d9::D3DRS_DEPTHBIAS {
        Some(17)
    } else if state == d3d9::D3DRS_STENCILENABLE {
        Some(18)
    } else if state == d3d9::D3DRS_STENCILFAIL {
        Some(19)
    } else if state == d3d9::D3DRS_STENCILZFAIL {
        Some(20)
    } else if state == d3d9::D3DRS_STENCILPASS {
        Some(21)
    } else if state == d3d9::D3DRS_STENCILFUNC {
        Some(22)
    } else if state == d3d9::D3DRS_STENCILREF {
        Some(23)
    } else if state == d3d9::D3DRS_STENCILMASK {
        Some(24)
    } else if state == d3d9::D3DRS_STENCILWRITEMASK {
        Some(25)
    } else if state == d3d9::D3DRS_TEXTUREFACTOR {
        Some(26)
    } else if state == d3d9::D3DRS_WRAP0 {
        Some(27)
    } else if state == d3d9::D3DRS_WRAP1 {
        Some(28)
    } else if state == d3d9::D3DRS_WRAP2 {
        Some(29)
    } else if state == d3d9::D3DRS_WRAP3 {
        Some(30)
    } else if state == d3d9::D3DRS_WRAP4 {
        Some(31)
    } else if state == d3d9::D3DRS_WRAP5 {
        Some(32)
    } else if state == d3d9::D3DRS_WRAP6 {
        Some(33)
    } else if state == d3d9::D3DRS_WRAP7 {
        Some(34)
    } else if state == d3d9::D3DRS_WRAP8 {
        Some(35)
    } else if state == d3d9::D3DRS_WRAP9 {
        Some(36)
    } else if state == d3d9::D3DRS_WRAP10 {
        Some(37)
    } else if state == d3d9::D3DRS_WRAP11 {
        Some(38)
    } else if state == d3d9::D3DRS_WRAP12 {
        Some(39)
    } else if state == d3d9::D3DRS_WRAP13 {
        Some(40)
    } else if state == d3d9::D3DRS_WRAP14 {
        Some(41)
    } else if state == d3d9::D3DRS_WRAP15 {
        Some(42)
    } else if state == d3d9::D3DRS_LOCALVIEWER {
        Some(43)
    } else if state == d3d9::D3DRS_EMISSIVEMATERIALSOURCE {
        Some(44)
    } else if state == d3d9::D3DRS_AMBIENTMATERIALSOURCE {
        Some(45)
    } else if state == d3d9::D3DRS_DIFFUSEMATERIALSOURCE {
        Some(46)
    } else if state == d3d9::D3DRS_SPECULARMATERIALSOURCE {
        Some(47)
    } else if state == d3d9::D3DRS_COLORWRITEENABLE {
        Some(48)
    } else if state == d3d9::D3DRS_BLENDOP {
        Some(49)
    } else if state == d3d9::D3DRS_SCISSORTESTENABLE {
        Some(50)
    } else if state == d3d9::D3DRS_SLOPESCALEDEPTHBIAS {
        Some(51)
    } else if state == d3d9::D3DRS_ANTIALIASEDLINEENABLE {
        Some(52)
    } else if state == d3d9::D3DRS_TWOSIDEDSTENCILMODE {
        Some(53)
    } else if state == d3d9::D3DRS_CCW_STENCILFAIL {
        Some(54)
    } else if state == d3d9::D3DRS_CCW_STENCILZFAIL {
        Some(55)
    } else if state == d3d9::D3DRS_CCW_STENCILPASS {
        Some(56)
    } else if state == d3d9::D3DRS_CCW_STENCILFUNC {
        Some(57)
    } else if state == d3d9::D3DRS_COLORWRITEENABLE1 {
        Some(58)
    } else if state == d3d9::D3DRS_COLORWRITEENABLE2 {
        Some(59)
    } else if state == d3d9::D3DRS_COLORWRITEENABLE3 {
        Some(60)
    } else if state == d3d9::D3DRS_BLENDFACTOR {
        Some(61)
    } else if state == d3d9::D3DRS_SRGBWRITEENABLE {
        Some(62)
    } else if state == d3d9::D3DRS_SEPARATEALPHABLENDENABLE {
        Some(63)
    } else if state == d3d9::D3DRS_SRCBLENDALPHA {
        Some(64)
    } else if state == d3d9::D3DRS_DESTBLENDALPHA {
        Some(65)
    } else if state == d3d9::D3DRS_BLENDOPALPHA {
        Some(66)
    } else if state == d3d9::D3DRS_FOGENABLE {
        Some(67)
    } else if state == d3d9::D3DRS_SPECULARENABLE {
        Some(68)
    } else {
        None
    }
}

/// Structure containing all state related to pixel processing.
#[derive(Debug, Copy, Clone, PartialEq, Eq)]
pub struct PixelState {
    /// The render states, each at its place.
    pub rs: [u32; 69],
    /// The sampler states of each texture unit.
    pub ss: [SamplerState; 16],
    /// The texture stage states of each texture unit.
    pub ts: [TextureState; 16],
}

impl PixelState {
    /// Whether the block tracks a render state.
    pub open spec fn tracks(state: u32) -> bool {
        pixel_render_state_slot(state) is Some
    }

    /// The value of a render state, for the render states that the block
    /// tracks.
    pub open spec fn render_state(&self, state: u32) -> Option<u32> {
        match pixel_render_state_slot(state) {
            Some(slot) => Some(self.rs[slot]),
            None => None,
        }
    }

    /// The value of a sampler state of a unit; zero where there is no such
    /// unit or state.
    pub open spec fn sampler_state(&self, sampler: u32, ty: u32) -> u32 {
        if sampler < PIXEL_SAMPLERS {
            self.ss[sampler as int].state(ty)
        } else {
            0
        }
    }

    /// The value of a texture stage state of a unit; zero where there is no
    /// such unit or state.
    pub open spec fn texture_stage_state(&self, stage: u32, ty: u32) -> u32 {
        if stage < PIXEL_SAMPLERS {
            self.ts[stage as int].state(ty)
        } else {
            0
        }
    }

    /// This block with one render state set; the same block for a render
    /// state that it does not track.
    pub open spec fn with_render_state(&self, state: u32, value: u32) -> PixelState {
        match pixel_render_state_slot(state) {
            Some(slot) => PixelState { rs: spec_array_update(self.rs, slot, value), ..*self },
            None => *self,
        }
    }

    /// This block with one sampler state of one unit set; the same block
    /// where there is no such unit.
    pub open spec fn with_sampler_state(&self, sampler: u32, ty: u32, value: u32) -> PixelState {
        if sampler < PIXEL_SAMPLERS {
            PixelState {
                ss: spec_array_update(self.ss, sampler as int, self.ss[sampler as int].with(ty, value)),
                ..*self
            }
        } else {
            *self
        }
    }

    /// This block with one texture stage state of one unit set; the same
    /// block where there is no such unit.
    pub open spec fn with_texture_stage_state(&self, stage: u32, ty: u32, value: u32) -> PixelState {
        if stage < PIXEL_SAMPLERS {
            PixelState {
                ts: spec_array_update(self.ts, stage as int, self.ts[stage as int].with(ty, value)),
                ..*self
            }
        } else {
            *self
        }
    }

    /// Creates a new pixel state structure in which nothing is set: every
    /// state reads as zero.
    pub fn empty() -> (res: Self)
        ensures
            forall|state: u32| #[trigger]
                res.render_state(state) == (if PixelState::tracks(state) {
                    Some(0u32)
                } else {
                    None
                }),
            forall|unit: u32, ty: u32| #[trigger] res.sampler_state(unit, ty) == 0,
            forall|unit: u32, ty: u32| #[trigger] res.texture_stage_state(unit, ty) == 0,
    {
        Self {
            rs: [0; 69],
            ss: [SamplerState { values: [0; 13] }; 16],
            ts: [TextureState { values: [0; 18] }; 16],
        }
    }

    /// Sets a render state variable.
    pub fn set_render_state(&mut self, state: u32, value: u32)
        ensures
            *final(self) == old(self).with_render_state(state, value),
    {
        match render_state_slot_of(state) {
            Some(slot) => {
                self.rs[slot] = value;
                assert(self.rs =~= spec_array_update(old(self).rs, slot as int, value));
            },
            None => {},
        }
    }

    /// Retrieves the value of a render state variable.
    pub fn get_render_state(&self, state: u32) -> (res: Option<u32>)
        ensures
            res == self.render_state(state),
    {
        match render_state_slot_of(state) {
            Some(slot) => Some(self.rs[slot]),
            None => None,
        }
    }

    /// Sets a sampler state variable.
    pub fn set_sampler_state(&mut self, sampler: u32, ty: u32, value: u32)
        ensures
            *final(self) == old(self).with_sampler_state(sampler, ty, value),
    {
        if sampler < 16 {
            let mut unit = self.ss[sampler as usize];
            unit.set(ty, value);
            self.ss[sampler as usize] = unit;
            assert(self.ss =~= spec_array_update(old(self).ss, sampler as int, unit));
        }
    }

    /// Retrieves the value of a sampler state variable.
    pub fn get_sampler_state(&self, sampler: u32, ty: u32) -> (res: u32)
        ensures
            res == self.sampler_state(sampler, ty),
    {
        if sampler < 16 {
            self.ss[sampler as usize].get(ty)
        } else {
            0
        }
    }

    /// Sets a texture stage state variable.
    pub fn set_texture_stage_state(&mut self, stage: u32, ty: u32, value: u32)
        ensures
            *final(self) == old(self).with_texture_stage_state(stage, ty, value),
    {
        if stage < 16 {
            let mut unit = self.ts[stage as usize];
            unit.set(ty, value);
            self.ts[stage as usize] = unit;
            assert(self.ts =~= spec_array_update(old(self).ts, stage as int, unit));
        }
    }

    /// Retrieves the value of a texture stage state variable.
    pub fn get_texture_stage_state(&self, stage: u32, ty: u32) -> (res: u32)
        ensures
            res == self.texture_stage_state(stage, ty),
    {
        if stage < 16 {
            self.ts[stage as usize].get(ty)
        } else {
            0
        }
    }
}

impl Default for PixelState {
    fn default() -> (res: Self)
        ensures
            forall|state: u32| #[trigger]
                res.render_state(state) == (if PixelState::tracks(state) {
                    Some(pixel_render_state_default(state))
                } else {
                    None
                }),
            forall|unit: int, ty: u32|
                0 <= unit < PIXEL_SAMPLERS ==> #[trigger] res.ss[unit].state(ty) == sampler_default(
                    ty,
                ),
            forall|unit: int, ty: u32|
                0 <= unit < PIXEL_SAMPLERS ==> #[trigger] res.ts[unit].state(ty) == stage_default(ty),
    {
        Self {
            rs: [
                d3d9::D3DZB_TRUE,
                d3d9::D3DFILL_SOLID,
                d3d9::D3DSHADE_GOURAUD,
                1,
                0,
                1,
                d3d9::D3DBLEND_ONE,
                d3d9::D3DBLEND_ZERO,
                d3d9::D3DCMP_LESSEQUAL,
                0,
                d3d9::D3DCMP_ALWAYS,
                0,
                0,
                0,
                1,
                1,
                0,
                0,
                0,
                d3d9::D3DSTENCILOP_KEEP,
                d3d9::D3DSTENCILOP_KEEP,
                d3d9::D3DSTENCILOP_KEEP,
                d3d9::D3DCMP_ALWAYS,
                0,
                0xFFFF_FFFF,
                0xFFFF_FFFF,
                0xFFFF_FFFF,
                0,
                0,
                0,
                0,
                0,
                0,
                0,
                0,
                0,
                0,
                0,
                0,
                0,
                0,
                0,
                0,
                1,
                d3d9::D3DMCS_MATERIAL,
                d3d9::D3DMCS_MATERIAL,
                d3d9::D3DMCS_COLOR1,
                d3d9::D3DMCS_COLOR2,
                0x0000_000F,
                d3d9::D3DBLENDOP_ADD,
                0,
                0,
                0,
                0,
                d3d9::D3DSTENCILOP_KEEP,
                d3d9::D3DSTENCILOP_KEEP,
                d3d9::D3DSTENCILOP_KEEP,
                d3d9::D3DCMP_ALWAYS,
                0x0000_000F,
                0x0000_000F,
                0x0000_000F,
                0xFFFF_FFFF,
                0,
                0,
                d3d9::D3DBLEND_ONE,
                d3d9::D3DBLEND_ZERO,
                d3d9::D3DBLENDOP_ADD,
                0,
                0,
            ],
            ss: [SamplerState::default(); 16],
            ts: [TextureState::default(); 16],
        }
    }
}

/// A render state that was set reads as the value it was set to, and no
/// other render state changes. A render state that the block does not track
/// changes nothing.
pub proof fn pixel_set_then_get(block: PixelState, state: u32, value: u32, other: u32)
    ensures
        PixelState::tracks(state) ==> block.with_render_state(state, value).render_state(state)
            == Some(value),
        !PixelState::tracks(state) ==> block.with_render_state(state, value) == block,
        other != state ==> block.with_render_state(state, value).render_state(other)
            == block.render_state(other),
{
}

} // verus!
