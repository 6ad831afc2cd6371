//! State of the vertex stage.

use vstd::array::spec_array_update;
use vstd::prelude::*;
use crate::abi::d3d9;
use crate::abi::FLOAT_ONE;
use crate::dev::state::unit::{sampler_default, stage_default, SamplerState, TextureState};

verus! {

/// Number of render states that the vertex block tracks.
pub const VERTEX_RENDER_STATES: usize = 41;

/// Number of texture units of the vertex stage.
pub const VERTEX_SAMPLERS: usize = 4;

/// The place of a render state in the vertex block, for the render states
/// that the block tracks.
pub open spec fn vertex_render_state_slot(state: u32) -> Option<int> {
    if state == d3d9::D3DRS_CULLMODE {
        Some(0)
    } else if state == d3d9::D3DRS_FOGCOLOR {
        Some(1)
    } else if state == d3d9::D3DRS_FOGTABLEMODE {
        Some(2)
    } else if state == d3d9::D3DRS_FOGSTART {
        Some(3)
    } else if state == d3d9::D3DRS_FOGEND {
        Some(4)
    } else if state == d3d9::D3DRS_FOGDENSITY {
        Some(5)
    } else if state == d3d9::D3DRS_RANGEFOGENABLE {
        Some(6)
    } else if state == d3d9::D3DRS_AMBIENT {
        Some(7)
    } else if state == d3d9::D3DRS_COLORVERTEX {
        Some(8)
    } else if state == d3d9::D3DRS_FOGVERTEXMODE {
        Some(9)
    } else if state == d3d9::D3DRS_CLIPPING {
        Some(10)
    } else if state == d3d9::D3DRS_LIGHTING {
        Some(11)
    } else if state == d3d9::D3DRS_LOCALVIEWER {
        Some(12)
    } else if state == d3d9::D3DRS_EMISSIVEMATERIALSOURCE {
        Some(13)
    } else if state == d3d9::D3DRS_AMBIENTMATERIALSOURCE {
        Some(14)
    } else if state == d3d9::D3DRS_DIFFUSEMATERIALSOURCE {
        Some(15)
    } else if state == d3d9::D3DRS_SPECULARMATERIALSOURCE {
        Some(16)
    } else if state == d3d9::D3DRS_VERTEXBLEND {
        Some(17)
    } else if state == d3d9::D3DRS_CLIPPLANEENABLE {
        Some(18)
    } else if state == d3d9::D3DRS_POINTSIZE {
        Some(19)
    } else if state == d3d9::D3DRS_POINTSIZE_MIN {
        Some(20)
    } else if state == d3d9::D3DRS_POINTSPRITEENABLE {
        Some(21)
    } else if state == d3d9::D3DRS_POINTSCALEENABLE {
        Some(22)
    } else if state == d3d9::D3DRS_POINTSCALE_A {
        Some(23)
    } else if state == d3d9::D3DRS_POINTSCALE_B {
        Some(24)
    } else if state == d3d9::D3DRS_POINTSCALE_C {
        Some(25)
    } else if state == d3d9::D3DRS_MULTISAMPLEANTIALIAS {
        Some(26)
    } else if state == d3d9::D3DRS_MULTISAMPLEMASK {
        Some(27)
    } else if state == d3d9::D3DRS_PATCHEDGESTYLE {
        Some(28)
    } else if state == d3d9::D3DRS_POINTSIZE_MAX {
        Some(29)
    } else if state == d3d9::D3DRS_INDEXEDVERTEXBLENDENABLE {
        Some(30)
    } else if state == d3d9::D3DRS_TWEENFACTOR {
        Some(31)
    } else if state == d3d9::D3DRS_POSITIONDEGREE {
        Some(32)
    } else if state == d3d9::D3DRS_NORMALDEGREE {
        Some(33)
    } else if state == d3d9::D3DRS_MINTESSELLATIONLEVEL {
        Some(34)
    } else if state == d3d9::D3DRS_MAXTESSELLATIONLEVEL {
        Some(35)
    } else if state == d3d9::D3DRS_ADAPTIVETESS_X {
        Some(36)
    } else if state == d3d9::D3DRS_ADAPTIVETESS_Y {
        Some(37)
    } else if state == d3d9::D3DRS_ADAPTIVETESS_Z {
        Some(38)
    } else if state == d3d9::D3DRS_ADAPTIVETESS_W {
        Some(39)
    } else if state == d3d9::D3DRS_ENABLEADAPTIVETESSELLATION {
        Some(40)
    } else {
        None
    }
}

/// The value of a render state of the vertex block before it is first set.
/// The size of points is a single-precision number, and starts at one.
pub open spec fn vertex_render_state_default(state: u32) -> u32 {
    if state == d3d9::D3DRS_CULLMODE {
        d3d9::D3DCULL_CCW
    } else if state == d3d9::D3DRS_FOGCOLOR {
        0
    } else if state == d3d9::D3DRS_FOGTABLEMODE {
        d3d9::D3DFOG_NONE
    } else if state == d3d9::D3DRS_FOGSTART {
        0
    } else if state == d3d9::D3DRS_FOGEND {
        1
    } else if state == d3d9::D3DRS_FOGDENSITY {
        1
    } else if state == d3d9::D3DRS_RANGEFOGENABLE {
        0
    } else if state == d3d9::D3DRS_AMBIENT {
        0
    } else if state == d3d9::D3DRS_COLORVERTEX {
        1
    } else if state == d3d9::D3DRS_FOGVERTEXMODE {
        d3d9::D3DFOG_NONE
    } else if state == d3d9::D3DRS_CLIPPING {
        1
    } else if state == d3d9::D3DRS_LIGHTING {
        1
    } else if state == d3d9::D3DRS_LOCALVIEWER {
        1
    } else if state == d3d9::D3DRS_EMISSIVEMATERIALSOURCE {
        d3d9::D3DMCS_MATERIAL
    } else if state == d3d9::D3DRS_AMBIENTMATERIALSOURCE {
        d3d9::D3DMCS_MATERIAL
    } else if state == d3d9::D3DRS_DIFFUSEMATERIALSOURCE {
        d3d9::D3DMCS_COLOR1
    } else if state == d3d9::D3DRS_SPECULARMATERIALSOURCE {
        d3d9::D3DMCS_COLOR2
    } else if state == d3d9::D3DRS_VERTEXBLEND {
        d3d9::D3DVBF_DISABLE
    } else if state == d3d9::D3DRS_CLIPPLANEENABLE {
        0
    } else if state == d3d9::D3DRS_POINTSIZE {
        FLOAT_ONE
    } else if state == d3d9::D3DRS_POINTSIZE_MIN {
        1
    } else if state == d3d9::D3DRS_POINTSPRITEENABLE {
        0
    } else if state == d3d9::D3DRS_POINTSCALEENABLE {
        0
    } else if state == d3d9::D3DRS_POINTSCALE_A {
        1
    } else if state == d3d9::D3DRS_POINTSCALE_B {
        0
    } else if state == d3d9::D3DRS_POINTSCALE_C {
        0
    } else if state == d3d9::D3DRS_MULTISAMPLEANTIALIAS {
        1
    } else if state == d3d9::D3DRS_MULTISAMPLEMASK {
        0xFFFF_FFFF
    } else if state == d3d9::D3DRS_PATCHEDGESTYLE {
        d3d9::D3DPATCHEDGE_DISCRETE
    } else if state == d3d9::D3DRS_POINTSIZE_MAX {
        1
    } else if state == d3d9::D3DRS_INDEXEDVERTEXBLENDENABLE {
        0
    } else if state == d3d9::D3DRS_TWEENFACTOR {
        0
    } else if state == d3d9::D3DRS_POSITIONDEGREE {
        d3d9::D3DDEGREE_CUBIC
    } else if state == d3d9::D3DRS_NORMALDEGREE {
        d3d9::D3DDEGREE_LINEAR
    } else if state == d3d9::D3DRS_MINTESSELLATIONLEVEL {
        1
    } else if state == d3d9::D3DRS_MAXTESSELLATIONLEVEL {
        1
    } else if state == d3d9::D3DRS_ADAPTIVETESS_X {
        0
    } else if state == d3d9::D3DRS_ADAPTIVETESS_Y {
        0
    } else if state == d3d9::D3DRS_ADAPTIVETESS_Z {
        1
    } else if state == d3d9::D3DRS_ADAPTIVETESS_W {
        0
    } else if state == d3d9::D3DRS_ENABLEADAPTIVETESSELLATION {
        0
    } else {
        0
    }
}

fn render_state_slot_of(state: u32) -> (res: Option<usize>)
    ensures
        match res {
            Some(slot) => vertex_render_state_slot(state) == Some(slot as int) && slot
                < VERTEX_RENDER_STATES,
            None => vertex_render_state_slot(state) is None,
        },
{
    if state == d3d9::D3DRS_CULLMODE {
        Some(0)
    } else if state == d3d9::D3DRS_FOGCOLOR {
        Some(1)
    } else if state == d3d9::D3DRS_FOGTABLEMODE {
        Some(2)
    } else if state == d3d9::D3DRS_FOGSTART {
        Some(3)
    } else if state == d3d9::D3DRS_FOGEND {
        Some(4)
    } else if state == d3d9::D3DRS_FOGDENSITY {
        Some(5)
    } else if state == d3d9::D3DRS_RANGEFOGENABLE {
        Some(6)
    } else if state == d3d9::D3DRS_AMBIENT {
        Some(7)
    } else if state == d3d9::D3DRS_COLORVERTEX {
        Some(8)
    } else if state == d3d9::D3DRS_FOGVERTEXMODE {
        Some(9)
    } else if state == d3d9::D3DRS_CLIPPING {
        Some(10)
    } else if state == d3d9::D3DRS_LIGHTING {
        Some(11)
    } else if state == d3d9::D3DRS_LOCALVIEWER {
        Some(12)
    } else if state == d3d9::D3DRS_EMISSIVEMATERIALSOURCE {
        Some(13)
    } else if state == d3d9::D3DRS_AMBIENTMATERIALSOURCE {
        Some(14)
    } else if state == d3d9::D3DRS_DIFFUSEMATERIALSOURCE {
        Some(15)
    } else if state == d3d9::D3DRS_SPECULARMATERIALSOURCE {
        Some(16)
    } else if state == d3d9::D3DRS_VERTEXBLEND {
        Some(17)
    } else if state == d3d9::D3DRS_CLIPPLANEENABLE {
        Some(18)
    } else if state == d3d9::D3DRS_POINTSIZE {
        Some(19)
    } else if state == d3d9::D3DRS_POINTSIZE_MIN {
        Some(20)
    } else if state == d3d9::D3DRS_POINTSPRITEENABLE {
        Some(21)
    } else if state == d3d9::D3DRS_POINTSCALEENABLE {
        Some(22)
    } else if state == d3d9::D3DRS_POINTSCALE_A {
        Some(23)
    } else if state == d3d9::D3DRS_POINTSCALE_B {
        Some(24)
    } else if state == d3d9::D3DRS_POINTSCALE_C {
        Some(25)
    } else if state == d3d9::D3DRS_MULTISAMPLEANTIALIAS {
        Some(26)
    } else if state == d3d9::D3DRS_MULTISAMPLEMASK {
        Some(27)
    } else if state == d3d9::D3DRS_PATCHEDGESTYLE {
        Some(28)
    } else if state == d3d9::D3DRS_POINTSIZE_MAX {
        Some(29)
    } else if state == d3d9::D3DRS_INDEXEDVERTEXBLENDENABLE {
        Some(30)
    } else if state == d3d9::D3DRS_TWEENFACTOR {
        Some(31)
    } else if state == d3d9::D3DRS_POSITIONDEGREE {
        Some(32)
    } else if state == d3d9::D3DRS_NORMALDEGREE {
        Some(33)
    } else if state == d3d9::D3DRS_MINTESSELLATIONLEVEL {
        Some(34)
    } else if state == d3d9::D3DRS_MAXTESSELLATIONLEVEL {
        Some(35)
    } else if state == d3d9::D3DRS_ADAPTIVETESS_X {
        Some(36)
    } else if state == d3d9::D3DRS_ADAPTIVETESS_Y {
        Some(37)
    } else if state == d3d9::D3DRS_ADAPTIVETESS_Z {
        Some(38)
    } else if state == d3d9::D3DRS_ADAPTIVETESS_W {
        Some(39)
    } else if state == d3d9::D3DRS_ENABLEADAPTIVETESSELLATION {
        Some(40)
    } else {
        None
    }
}

/// Structure containing all state related to vertex processing.
#[derive(Debug, Copy, Clone, PartialEq, Eq)]
pub struct VertexState {
    /// The render states, each at its place.
    pub rs: [u32; 41],
    /// The sampler states of each texture unit.
    pub ss: [SamplerState; 4],
    /// The texture stage states of each texture unit.
    pub ts: [TextureState; 4],
    /// The vertex declaration in use, or zero. The block names it and does
    /// not keep it alive.
    pub vertex_decl: usize,
}

impl VertexState {
    /// Whether the block tracks a render state.
    pub open spec fn tracks(state: u32) -> bool {
        vertex_render_state_slot(state) is Some
    }

    /// The value of a render state, for the render states that the block
    /// tracks.
    pub open spec fn render_state(&self, state: u32) -> Option<u32> {
        match vertex_render_state_slot(state) {
            Some(slot) => Some(self.rs[slot]),
            None => None,
        }
    }

    /// The value of a sampler state of a unit; zero where there is no such
    /// unit or state.
    pub open spec fn sampler_state(&self, sampler: u32, ty: u32) -> u32 {
        if sampler < VERTEX_SAMPLERS {
            self.ss[sampler as int].state(ty)
        } else {
            0
        }
    }

    /// The value of a texture stage state of a unit; zero where there is no
    /// such unit or state.
    pub open spec fn texture_stage_state(&self, stage: u32, ty: u32) -> u32 {
        if stage < VERTEX_SAMPLERS {
            self.ts[stage as int].state(ty)
        } else {
            0
        }
    }

    /// This block with one render state set; the same block for a render
    /// state that it does not track.
    pub open spec fn with_render_state(&self, state: u32, value: u32) -> VertexState {
        match vertex_render_state_slot(state) {
            Some(slot) => VertexState { rs: spec_array_update(self.rs, slot, value), ..*self },
            None => *self,
        }
    }

    /// This block with one sampler state of one unit set; the same block
    /// where there is no such unit.
    pub open spec fn with_sampler_state(&self, sampler: u32, ty: u32, value: u32) -> VertexState {
        if sampler < VERTEX_SAMPLERS {
            VertexState {
                ss: spec_array_update(self.ss, sampler as int, self.ss[sampler as int].with(ty, value)),
                ..*self
            }
        } else {
            *self
        }
    }

    /// This block with one texture stage state of one unit set; the same
    /// block where there is no such unit.
    pub open spec fn with_texture_stage_state(&self, stage: u32, ty: u32, value: u32) -> VertexState {
        if stage < VERTEX_SAMPLERS {
            VertexState {
                ts: spec_array_update(self.ts, stage as int, self.ts[stage as int].with(ty, value)),
                ..*self
            }
        } else {
            *self
        }
    }

    /// Sets a render state variable.
    pub fn set_render_state(&mut self, state: u32, value: u32)
        ensures
            *final(self) == old(self).with_render_state(state, value),
    {
        match render_state_slot_of(state) {
            Some(slot) => {
                self.rs[slot] = value;
                assert(self.rs =~= spec_array_update(old(self).rs, slot as int, value));
            },
            None => {},
        }
    }

    /// Retrieves the value of a render state variable.
    pub fn get_render_state(&self, state: u32) -> (res: Option<u32>)
        ensures
            res == self.render_state(state),
    {
        match render_state_slot_of(state) {
            Some(slot) => Some(self.rs[slot]),
            None => None,
        }
    }

    /// Sets a sampler state variable.
    pub fn set_sampler_state(&mut self, sampler: u32, ty: u32, value: u32)
        ensures
            *final(self) == old(self).with_sampler_state(sampler, ty, value),
    {
        if sampler < 4 {
            let mut unit = self.ss[sampler as usize];
            unit.set(ty, value);
            self.ss[sampler as usize] = unit;
            assert(self.ss =~= spec_array_update(old(self).ss, sampler as int, unit));
        }
    }

    /// Retrieves the value of a sampler state variable.
    pub fn get_sampler_state(&self, sampler: u32, ty: u32) -> (res: u32)
        ensures
            res == self.sampler_state(sampler, ty),
    {
        if sampler < 4 {
            self.ss[sampler as usize].get(ty)
        } else {
            0
        }
    }

    /// Sets a texture stage state variable.
    pub fn set_texture_stage_state(&mut self, stage: u32, ty: u32, value: u32)
        ensures
            *final(self) == old(self).with_texture_stage_state(stage, ty, value),
    {
        if stage < 4 {
            let mut unit = self.ts[stage as usize];
            unit.set(ty, value);
            self.ts[stage as usize] = unit;
            assert(self.ts =~= spec_array_update(old(self).ts, stage as int, unit));
        }
    }

    /// Retrieves the value of a texture stage state variable.
    pub fn get_texture_stage_state(&self, stage: u32, ty: u32) -> (res: u32)
        ensures
            res == self.texture_stage_state(stage, ty),
    {
        if stage < 4 {
            self.ts[stage as usize].get(ty)
        } else {
            0
        }
    }
}

impl Default for VertexState {
    fn default() -> (res: Self)
        ensures
            forall|state: u32| #[trigger]
                res.render_state(state) == (if VertexState::tracks(state) {
                    Some(vertex_render_state_default(state))
                } else {
                    None
                }),
            forall|unit: int, ty: u32|
                0 <= unit < VERTEX_SAMPLERS ==> #[trigger] res.ss[unit].state(ty) == sampler_default(
                    ty,
                ),
            forall|unit: int, ty: u32|
                0 <= unit < VERTEX_SAMPLERS ==> #[trigger] res.ts[unit].state(ty) == stage_default(ty),
            res.vertex_decl == 0,
    {
        Self {
            rs: [
                d3d9::D3DCULL_CCW,
                0,
                d3d9::D3DFOG_NONE,
                0,
                1,
                1,
                0,
                0,
                1,
                d3d9::D3DFOG_NONE,
                1,
                1,
                1,
                d3d9::D3DMCS_MATERIAL,
                d3d9::D3DMCS_MATERIAL,
                d3d9::D3DMCS_COLOR1,
                d3d9::D3DMCS_COLOR2,
                d3d9::D3DVBF_DISABLE,
                0,
                FLOAT_ONE,
                1,
                0,
                0,
                1,
                0,
                0,
                1,
                0xFFFF_FFFF,
                d3d9::D3DPATCHEDGE_DISCRETE,
                1,
                0,
                0,
                d3d9::D3DDEGREE_CUBIC,
                d3d9::D3DDEGREE_LINEAR,
                1,
                1,
                0,
                0,
                1,
                0,
                0,
            ],
            ss: [SamplerState::default(); 4],
            ts: [TextureState::default(); 4],
            vertex_decl: 0,
        }
    }
}

/// A render state that was set reads as the value it was set to, and no
/// other render state changes. A render state that the block does not track
/// changes nothing.
pub proof fn vertex_set_then_get(block: VertexState, state: u32, value: u32, other: u32)
    ensures
        VertexState::tracks(state) ==> block.with_render_state(state, value).render_state(state)
            == Some(value),
        !VertexState::tracks(state) ==> block.with_render_state(state, value) == block,
        other != state ==> block.with_render_state(state, value).render_state(other)
            == block.render_state(other),
{
}

} // verus!
