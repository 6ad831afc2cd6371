//! The state of one texture unit: how it samples, and how its stage of the
//! fixed-function pipeline combines.
//!
//! Both kinds of state are tables from a key of the legacy interface to a
//! 32-bit value. A key that is not in the table is not tracked: it cannot be
//! set and reads as zero.

use vstd::array::spec_array_update;
use vstd::prelude::*;
use crate::abi::d3d9;

verus! {

/// Number of sampler states of a texture unit.
pub const SAMPLER_STATES: usize = 13;

/// Number of texture stage states of a texture unit.
pub const STAGE_STATES: usize = 18;

/// Whether a number is the key of a sampler state.
pub open spec fn is_sampler_state_type(ty: u32) -> bool {
    sampler_slot(ty) is Some
}

/// Whether a number is the key of a texture stage state.
pub open spec fn is_texture_stage_state_type(ty: u32) -> bool {
    stage_slot(ty) is Some
}

/// The place of a sampler state in the table of a unit.
pub open spec fn sampler_slot(ty: u32) -> Option<int> {
    if ty == d3d9::D3DSAMP_ADDRESSU {
        Some(0)
    } else if ty == d3d9::D3DSAMP_ADDRESSV {
        Some(1)
    } else if ty == d3d9::D3DSAMP_ADDRESSW {
        Some(2)
    } else if ty == d3d9::D3DSAMP_BORDERCOLOR {
        Some(3)
    } else if ty == d3d9::D3DSAMP_MAGFILTER {
        Some(4)
    } else if ty == d3d9::D3DSAMP_MINFILTER {
        Some(5)
    } else if ty == d3d9::D3DSAMP_MIPFILTER {
        Some(6)
    } else if ty == d3d9::D3DSAMP_MIPMAPLODBIAS {
        Some(7)
    } else if ty == d3d9::D3DSAMP_MAXMIPLEVEL {
        Some(8)
    } else if ty == d3d9::D3DSAMP_MAXANISOTROPY {
        Some(9)
    } else if ty == d3d9::D3DSAMP_SRGBTEXTURE {
        Some(10)
    } else if ty == d3d9::D3DSAMP_ELEMENTINDEX {
        Some(11)
    } else if ty == d3d9::D3DSAMP_DMAPOFFSET {
        Some(12)
    } else {
        None
    }
}

/// The value of a sampler state before it is first set.
pub open spec fn sampler_default(ty: u32) -> u32 {
    if ty == d3d9::D3DSAMP_ADDRESSU {
        d3d9::D3DTADDRESS_WRAP
    } else if ty == d3d9::D3DSAMP_ADDRESSV {
        d3d9::D3DTADDRESS_WRAP
    } else if ty == d3d9::D3DSAMP_ADDRESSW {
        d3d9::D3DTADDRESS_WRAP
    } else if ty == d3d9::D3DSAMP_BORDERCOLOR {
        0
    } else if ty == d3d9::D3DSAMP_MAGFILTER {
        d3d9::D3DTEXF_POINT
    } else if ty == d3d9::D3DSAMP_MINFILTER {
        d3d9::D3DTEXF_POINT
    } else if ty == d3d9::D3DSAMP_MIPFILTER {
        d3d9::D3DTEXF_NONE
    } else if ty == d3d9::D3DSAMP_MIPMAPLODBIAS {
        0
    } else if ty == d3d9::D3DSAMP_MAXMIPLEVEL {
        0
    } else if ty == d3d9::D3DSAMP_MAXANISOTROPY {
        1
    } else if ty == d3d9::D3DSAMP_SRGBTEXTURE {
        0
    } else if ty == d3d9::D3DSAMP_ELEMENTINDEX {
        0
    } else if ty == d3d9::D3DSAMP_DMAPOFFSET {
        256
    } else {
        0
    }
}

/// The place of a texture stage state in the table of a unit.
pub open spec fn stage_slot(ty: u32) -> Option<int> {
    if ty == d3d9::D3DTSS_COLOROP {
        Some(0)
    } else if ty == d3d9::D3DTSS_COLORARG1 {
        Some(1)
    } else if ty == d3d9::D3DTSS_COLORARG2 {
        Some(2)
    } else if ty == d3d9::D3DTSS_ALPHAOP {
        Some(3)
    } else if ty == d3d9::D3DTSS_ALPHAARG1 {
        Some(4)
    } else if ty == d3d9::D3DTSS_ALPHAARG2 {
        Some(5)
    } else if ty == d3d9::D3DTSS_BUMPENVMAT00 {
        Some(6)
    } else if ty == d3d9::D3DTSS_BUMPENVMAT01 {
        Some(7)
    } else if ty == d3d9::D3DTSS_BUMPENVMAT10 {
        Some(8)
    } else if ty == d3d9::D3DTSS_BUMPENVMAT11 {
        Some(9)
    } else if ty == d3d9::D3DTSS_TEXCOORDINDEX {
        Some(10)
    } else if ty == d3d9::D3DTSS_BUMPENVLSCALE {
        Some(11)
    } else if ty == d3d9::D3DTSS_BUMPENVLOFFSET {
        Some(12)
    } else if ty == d3d9::D3DTSS_TEXTURETRANSFORMFLAGS {
        Some(13)
    } else if ty == d3d9::D3DTSS_COLORARG0 {
        Some(14)
    } else if ty == d3d9::D3DTSS_ALPHAARG0 {
        Some(15)
    } else if ty == d3d9::D3DTSS_RESULTARG {
        Some(16)
    } else if ty == d3d9::D3DTSS_CONSTANT {
        Some(17)
    } else {
        None
    }
}

/// The value of a texture stage state before it is first set. The first
/// stage of the pixel pipeline starts out differently, see there.
pub open spec fn stage_default(ty: u32) -> u32 {
    if ty == d3d9::D3DTSS_COLOROP {
        d3d9::D3DTOP_DISABLE
    } else if ty == d3d9::D3DTSS_COLORARG1 {
        d3d9::D3DTA_TEXTURE
    } else if ty == d3d9::D3DTSS_COLORARG2 {
        d3d9::D3DTA_CURRENT
    } else if ty == d3d9::D3DTSS_ALPHAOP {
        d3d9::D3DTOP_DISABLE
    } else if ty == d3d9::D3DTSS_ALPHAARG1 {
        d3d9::D3DTA_TEXTURE
    } else if ty == d3d9::D3DTSS_ALPHAARG2 {
        d3d9::D3DTA_CURRENT
    } else if ty == d3d9::D3DTSS_BUMPENVMAT00 {
        0
    } else if ty == d3d9::D3DTSS_BUMPENVMAT01 {
        0
    } else if ty == d3d9::D3DTSS_BUMPENVMAT10 {
        0
    } else if ty == d3d9::D3DTSS_BUMPENVMAT11 {
        0
    } else if ty == d3d9::D3DTSS_TEXCOORDINDEX {
        0
    } else if ty == d3d9::D3DTSS_BUMPENVLSCALE {
        0
    } else if ty == d3d9::D3DTSS_BUMPENVLOFFSET {
        0
    } else if ty == d3d9::D3DTSS_TEXTURETRANSFORMFLAGS {
        d3d9::D3DTTFF_DISABLE
    } else if ty == d3d9::D3DTSS_COLORARG0 {
        d3d9::D3DTA_CURRENT
    } else if ty == d3d9::D3DTSS_ALPHAARG0 {
        d3d9::D3DTA_CURRENT
    } else if ty == d3d9::D3DTSS_RESULTARG {
        d3d9::D3DTA_CURRENT
    } else if ty == d3d9::D3DTSS_CONSTANT {
        0
    } else {
        0
    }
}

fn sampler_slot_of(ty: u32) -> (res: Option<usize>)
    ensures
        match res {
            Some(slot) => sampler_slot(ty) == Some(slot as int) && slot < SAMPLER_STATES,
            None => sampler_slot(ty) is None,
        },
{
    if ty == d3d9::D3DSAMP_ADDRESSU {
        Some(0)
    } else if ty == d3d9::D3DSAMP_ADDRESSV {
        Some(1)
    } else if ty == d3d9::D3DSAMP_ADDRESSW {
        Some(2)
    } else if ty == d3d9::D3DSAMP_BORDERCOLOR {
        Some(3)
    } else if ty == d3d9::D3DSAMP_MAGFILTER {
        Some(4)
    } else if ty == d3d9::D3DSAMP_MINFILTER {
        Some(5)
    } else if ty == d3d9::D3DSAMP_MIPFILTER {
        Some(6)
    } else if ty == d3d9::D3DSAMP_MIPMAPLODBIAS {
        Some(7)
    } else if ty == d3d9::D3DSAMP_MAXMIPLEVEL {
        Some(8)
    } else if ty == d3d9::D3DSAMP_MAXANISOTROPY {
        Some(9)
    } else if ty == d3d9::D3DSAMP_SRGBTEXTURE {
        Some(10)
    } else if ty == d3d9::D3DSAMP_ELEMENTINDEX {
        Some(11)
    } else if ty == d3d9::D3DSAMP_DMAPOFFSET {
        Some(12)
    } else {
        None
    }
}

fn stage_slot_of(ty: u32) -> (res: Option<usize>)
    ensures
        match res {
            Some(slot) => stage_slot(ty) == Some(slot as int) && slot < STAGE_STATES,
            None => stage_slot(ty) is None,
        },
{
    if ty == d3d9::D3DTSS_COLOROP {
        Some(0)
    } else if ty == d3d9::D3DTSS_COLORARG1 {
        Some(1)
    } else if ty == d3d9::D3DTSS_COLORARG2 {
        Some(2)
    } else if ty == d3d9::D3DTSS_ALPHAOP {
        Some(3)
    } else if ty == d3d9::D3DTSS_ALPHAARG1 {
        Some(4)
    } else if ty == d3d9::D3DTSS_ALPHAARG2 {
        Some(5)
    } else if ty == d3d9::D3DTSS_BUMPENVMAT00 {
        Some(6)
    } else if ty == d3d9::D3DTSS_BUMPENVMAT01 {
        Some(7)
    } else if ty == d3d9::D3DTSS_BUMPENVMAT10 {
        Some(8)
    } else if ty == d3d9::D3DTSS_BUMPENVMAT11 {
        Some(9)
    } else if ty == d3d9::D3DTSS_TEXCOORDINDEX {
        Some(10)
    } else if ty == d3d9::D3DTSS_BUMPENVLSCALE {
        Some(11)
    } else if ty == d3d9::D3DTSS_BUMPENVLOFFSET {
        Some(12)
    } else if ty == d3d9::D3DTSS_TEXTURETRANSFORMFLAGS {
        Some(13)
    } else if ty == d3d9::D3DTSS_COLORARG0 {
        Some(14)
    } else if ty == d3d9::D3DTSS_ALPHAARG0 {
        Some(15)
    } else if ty == d3d9::D3DTSS_RESULTARG {
        Some(16)
    } else if ty == d3d9::D3DTSS_CONSTANT {
        Some(17)
    } else {
        None
    }
}

/// The sampler states of one texture unit.
#[derive(Debug, Copy, Clone, PartialEq, Eq)]
pub struct SamplerState {
    pub values: [u32; 13],
}

impl SamplerState {
    /// The value of a sampler state; zero for a key that is not tracked.
    pub open spec fn state(&self, ty: u32) -> u32 {
        match sampler_slot(ty) {
            Some(slot) => self.values[slot],
            None => 0,
        }
    }

    /// This table with one state set; the same table for a key that is not
    /// tracked.
    pub open spec fn with(&self, ty: u32, value: u32) -> SamplerState {
        match sampler_slot(ty) {
            Some(slot) => SamplerState { values: spec_array_update(self.values, slot, value) },
            None => *self,
        }
    }

    /// Retrieves the value of a sampler state variable.
    pub fn get(&self, ty: u32) -> (res: u32)
        ensures
            res == self.state(ty),
    {
        match sampler_slot_of(ty) {
            Some(slot) => self.values[slot],
            None => 0,
        }
    }

    /// Sets a sampler state variable.
    pub fn set(&mut self, ty: u32, value: u32)
        ensures
            *final(self) == old(self).with(ty, value),
    {
        match sampler_slot_of(ty) {
            Some(slot) => {
                self.values[slot] = value;
                assert(self.values =~= spec_array_update(old(self).values, slot as int, value));
            },
            None => {},
        }
    }
}

impl Default for SamplerState {
    fn default() -> (res: Self)
        ensures
            forall|ty: u32| #[trigger] res.state(ty) == sampler_default(ty),
    {
        Self {
            values: [
                d3d9::D3DTADDRESS_WRAP,
                d3d9::D3DTADDRESS_WRAP,
                d3d9::D3DTADDRESS_WRAP,
                0,
                d3d9::D3DTEXF_POINT,
                d3d9::D3DTEXF_POINT,
                d3d9::D3DTEXF_NONE,
                0,
                0,
                1,
                0,
                0,
                256,
            ],
        }
    }
}

/// The texture stage states of one texture unit.
#[derive(Debug, Copy, Clone, PartialEq, Eq)]
pub struct TextureState {
    pub values: [u32; 18],
}

impl TextureState {
    /// The value of a texture stage state; zero for a key that is not
    /// tracked.
    pub open spec fn state(&self, ty: u32) -> u32 {
        match stage_slot(ty) {
            Some(slot) => self.values[slot],
            None => 0,
        }
    }

    /// This table with one state set; the same table for a key that is not
    /// tracked.
    pub open spec fn with(&self, ty: u32, value: u32) -> TextureState {
        match stage_slot(ty) {
            Some(slot) => TextureState { values: spec_array_update(self.values, slot, value) },
            None => *self,
        }
    }

    /// Retrieves the value of a texture stage state variable.
    pub fn get(&self, ty: u32) -> (res: u32)
        ensures
            res == self.state(ty),
    {
        match stage_slot_of(ty) {
            Some(slot) => self.values[slot],
            None => 0,
        }
    }

    /// Sets a texture stage state variable.
    pub fn set(&mut self, ty: u32, value: u32)
        ensures
            *final(self) == old(self).with(ty, value),
    {
        match stage_slot_of(ty) {
            Some(slot) => {
                self.values[slot] = value;
                assert(self.values =~= spec_array_update(old(self).values, slot as int, value));
            },
            None => {},
        }
    }
}

impl Default for TextureState {
    fn default() -> (res: Self)
        ensures
            forall|ty: u32| #[trigger] res.state(ty) == stage_default(ty),
    {
        Self {
            values: [
                d3d9::D3DTOP_DISABLE,
                d3d9::D3DTA_TEXTURE,
                d3d9::D3DTA_CURRENT,
                d3d9::D3DTOP_DISABLE,
                d3d9::D3DTA_TEXTURE,
                d3d9::D3DTA_CURRENT,
                0,
                0,
                0,
                0,
                0,
                0,
                0,
                d3d9::D3DTTFF_DISABLE,
                d3d9::D3DTA_CURRENT,
                d3d9::D3DTA_CURRENT,
                d3d9::D3DTA_CURRENT,
                0,
            ],
        }
    }
}

/// A state that was set reads as the value it was set to, and no other
/// state of the unit changes. A key that is not tracked changes nothing.
pub proof fn sampler_set_then_get(block: SamplerState, ty: u32, value: u32, other: u32)
    ensures
        is_sampler_state_type(ty) ==> block.with(ty, value).state(ty) == value,
        !is_sampler_state_type(ty) ==> block.with(ty, value) == block,
        other != ty ==> block.with(ty, value).state(other) == block.state(other),
{
}

/// A state that was set reads as the value it was set to, and no other
/// state of the stage changes. A key that is not tracked changes nothing.
pub proof fn stage_set_then_get(block: TextureState, ty: u32, value: u32, other: u32)
    ensures
        is_texture_stage_state_type(ty) ==> block.with(ty, value).state(ty) == value,
        !is_texture_stage_state_type(ty) ==> block.with(ty, value) == block,
        other != ty ==> block.with(ty, value).state(other) == block.state(other),
{
}

} // verus!
