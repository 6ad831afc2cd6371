//! The whole render state of a device.

use std::collections::HashMap;
use vstd::array::spec_array_update;
use vstd::prelude::*;
use crate::abi::d3d9;
use crate::abi::d3d9::{ColorValue, Material, Matrix, Viewport};
use crate::abi::FLOAT_ONE;
use crate::dev::state::pixel::{pixel_render_state_default, PixelState, PIXEL_SAMPLERS};
use crate::dev::state::unit::{
    is_sampler_state_type, is_texture_stage_state_type, sampler_default, stage_default,
};
use crate::dev::state::vertex::{vertex_render_state_default, VertexState, VERTEX_SAMPLERS};

verus! {

/// Number of texture slots: sixteen of the pixel stage, then four of the
/// vertex stage.
pub const TEXTURE_SLOTS: usize = 20;

/// Structure containing all render state.
/// This includes pixel and vertex state.
pub struct DeviceState {
    vertex: VertexState,
    pixel: PixelState,
    textures: [usize; 20],
    viewport: Viewport,
    transforms: HashMap<u32, Matrix>,
    material: Material,
}

/// What a [`DeviceState`] holds.
pub struct DeviceStateView {
    /// The state of the vertex stage.
    pub vertex: VertexState,
    /// The state of the pixel stage.
    pub pixel: PixelState,
    /// The texture bound to each slot, or zero.
    pub textures: Seq<usize>,
    /// The current viewport.
    pub viewport: Viewport,
    /// The transforms that were set.
    pub transforms: Map<u32, Matrix>,
    /// The current material.
    pub material: Material,
}

/// Whether a sampler or stage index names a texture unit of the vertex
/// stage.
pub open spec fn is_vertex_sampler(sampler: u32) -> bool {
    d3d9::D3DVERTEXTEXTURESAMPLER0 <= sampler <= d3d9::D3DVERTEXTEXTURESAMPLER3
}

/// The unit of the vertex stage that a sampler or stage index names.
pub open spec fn vertex_unit(sampler: u32) -> u32 {
    (sampler - d3d9::D3DVERTEXTEXTURESAMPLER0) as u32
}

/// The texture slot that a stage index names: its own number for a unit of
/// the pixel stage, and the slots after those for the units of the vertex
/// stage. An index that names none has no slot.
pub open spec fn texture_slot(stage: u32) -> Option<int> {
    if is_vertex_sampler(stage) {
        Some(16 + vertex_unit(stage))
    } else if stage < TEXTURE_SLOTS {
        Some(stage as int)
    } else {
        None
    }
}

/// The matrix that leaves every vector as it is.
pub open spec fn identity_matrix() -> Seq<u32> {
    Seq::new(16, |i: int| if i % 5 == 0 { FLOAT_ONE } else { 0u32 })
}

/// The value of a render state before it is first set: that of the vertex
/// block where it tracks the state, else that of the pixel block, and zero
/// for a state that neither tracks.
pub open spec fn render_state_default(state: u32) -> u32 {
    if VertexState::tracks(state) {
        vertex_render_state_default(state)
    } else if PixelState::tracks(state) {
        pixel_render_state_default(state)
    } else {
        0
    }
}

/// The value of a texture stage state of the pixel stage before it is first
/// set. The first stage modulates colour and takes alpha from its first
/// argument, every other stage is disabled.
pub open spec fn pixel_stage_default(stage: u32, ty: u32) -> u32 {
    if stage >= PIXEL_SAMPLERS {
        0
    } else if stage == 0 && ty == d3d9::D3DTSS_COLOROP {
        d3d9::D3DTOP_MODULATE
    } else if stage == 0 && ty == d3d9::D3DTSS_ALPHAOP {
        d3d9::D3DTOP_SELECTARG1
    } else {
        stage_default(ty)
    }
}

impl DeviceStateView {
    /// The value of a render state: that of the vertex block where it
    /// tracks the state, else that of the pixel block, and zero for a state
    /// that neither tracks.
    pub open spec fn render_state(self, state: u32) -> u32 {
        match self.vertex.render_state(state) {
            Some(value) => value,
            None => match self.pixel.render_state(state) {
                Some(value) => value,
                None => 0,
            },
        }
    }

    /// The value of a sampler state. The indices of the vertex texture
    /// samplers name the units of the vertex block, every other index a
    /// unit of the pixel block.
    pub open spec fn sampler_state(self, sampler: u32, ty: u32) -> u32 {
        if is_vertex_sampler(sampler) {
            self.vertex.sampler_state(vertex_unit(sampler), ty)
        } else {
            self.pixel.sampler_state(sampler, ty)
        }
    }

    /// The value of a texture stage state, with the stages named as the
    /// samplers are.
    pub open spec fn texture_stage_state(self, stage: u32, ty: u32) -> u32 {
        if is_vertex_sampler(stage) {
            self.vertex.texture_stage_state(vertex_unit(stage), ty)
        } else {
            self.pixel.texture_stage_state(stage, ty)
        }
    }

    /// The texture bound to a stage, or zero.
    pub open spec fn texture(self, stage: u32) -> usize {
        match texture_slot(stage) {
            Some(slot) => self.textures[slot],
            None => 0,
        }
    }

    /// The transform of the given kind: the one that was set, or the
    /// identity.
    pub open spec fn transform(self, ty: u32) -> Seq<u32> {
        if self.transforms.contains_key(ty) {
            self.transforms[ty].m@
        } else {
            identity_matrix()
        }
    }

    /// Whether nothing was set yet, the viewport aside: every state has the
    /// value that the legacy interface gives it at the start, no texture
    /// and no vertex declaration is bound, every transform is the identity
    /// and the material is black.
    pub open spec fn is_initial(self) -> bool {
        &&& forall|state: u32| #[trigger] self.render_state(state) == render_state_default(state)
        &&& forall|sampler: u32, ty: u32| #[trigger]
            self.sampler_state(sampler, ty) == (if is_vertex_sampler(sampler) || sampler
                < PIXEL_SAMPLERS {
                sampler_default(ty)
            } else {
                0
            })
        &&& forall|stage: u32, ty: u32| #[trigger]
            self.texture_stage_state(stage, ty) == (if is_vertex_sampler(stage) {
                stage_default(ty)
            } else {
                pixel_stage_default(stage, ty)
            })
        &&& forall|stage: u32| #[trigger] self.texture(stage) == 0
        &&& forall|ty: u32| #[trigger] self.transform(ty) == identity_matrix()
        &&& self.vertex.vertex_decl == 0
        &&& self.material == zero_material()
    }

    /// The state after a render state is set: both blocks take the value,
    /// each if it tracks the state.
    pub open spec fn with_render_state(self, state: u32, value: u32) -> DeviceStateView {
        DeviceStateView {
            vertex: self.vertex.with_render_state(state, value),
            pixel: self.pixel.with_render_state(state, value),
            ..self
        }
    }

    /// The state after a sampler state is set.
    pub open spec fn with_sampler_state(self, sampler: u32, ty: u32, value: u32)
        -> DeviceStateView {
        if is_vertex_sampler(sampler) {
            DeviceStateView {
                vertex: self.vertex.with_sampler_state(vertex_unit(sampler), ty, value),
                ..self
            }
        } else {
            DeviceStateView { pixel: self.pixel.with_sampler_state(sampler, ty, value), ..self }
        }
    }

    /// The state after a texture stage state is set.
    pub open spec fn with_texture_stage_state(self, stage: u32, ty: u32, value: u32)
        -> DeviceStateView {
        if is_vertex_sampler(stage) {
            DeviceStateView {
                vertex: self.vertex.with_texture_stage_state(vertex_unit(stage), ty, value),
                ..self
            }
        } else {
            DeviceStateView {
                pixel: self.pixel.with_texture_stage_state(stage, ty, value),
                ..self
            }
        }
    }

    /// The state after a texture is bound to a stage; the same state for a
    /// stage index that names no slot.
    pub open spec fn with_texture(self, stage: u32, texture: usize) -> DeviceStateView {
        match texture_slot(stage) {
            Some(slot) => DeviceStateView {
                textures: self.textures.update(slot, texture),
                ..self
            },
            None => self,
        }
    }
}

impl View for DeviceState {
    type V = DeviceStateView;

    closed spec fn view(&self) -> DeviceStateView {
        DeviceStateView {
            vertex: self.vertex,
            pixel: self.pixel,
            textures: self.textures@,
            viewport: self.viewport,
            transforms: self.transforms@,
            material: self.material,
        }
    }
}

impl DeviceState {
    /// Sets a render state in the blocks that track it.
    pub fn set_render_state(&mut self, state: u32, value: u32)
        ensures
            final(self)@ == old(self)@.with_render_state(state, value),
    {
        self.vertex.set_render_state(state, value);
        self.pixel.set_render_state(state, value);
    }

    /// Retrieves the value of a render state.
    pub fn get_render_state(&self, state: u32) -> (res: u32)
        ensures
            res == self@.render_state(state),
    {
        match self.vertex.get_render_state(state) {
            Some(value) => value,
            None => match self.pixel.get_render_state(state) {
                Some(value) => value,
                None => 0,
            },
        }
    }

    /// Sets the state of a texture sampler.
    pub fn set_sampler_state(&mut self, sampler: u32, ty: u32, value: u32)
        ensures
            final(self)@ == old(self)@.with_sampler_state(sampler, ty, value),
    {
        // The 4 vertex texture samplers are in the 257-260 range.
        if d3d9::D3DVERTEXTEXTURESAMPLER0 <= sampler && sampler <= d3d9::D3DVERTEXTEXTURESAMPLER3 {
            // Map the vertex sampler to the [0; 3] range.
            let sampler = sampler - d3d9::D3DVERTEXTEXTURESAMPLER0;
            self.vertex.set_sampler_state(sampler, ty, value);
        } else {
            self.pixel.set_sampler_state(sampler, ty, value)
        }
    }

    /// Gets the state of a texture sampler.
    pub fn get_sampler_state(&self, sampler: u32, ty: u32) -> (res: u32)
        ensures
            res == self@.sampler_state(sampler, ty),
    {
        if d3d9::D3DVERTEXTEXTURESAMPLER0 <= sampler && sampler <= d3d9::D3DVERTEXTEXTURESAMPLER3 {
            let sampler = sampler - d3d9::D3DVERTEXTEXTURESAMPLER0;
            self.vertex.get_sampler_state(sampler, ty)
        } else {
            self.pixel.get_sampler_state(sampler, ty)
        }
    }

    /// Sets a state of the texture stage of a unit.
    pub fn set_texture_stage_state(&mut self, stage: u32, ty: u32, value: u32)
        ensures
            final(self)@ == old(self)@.with_texture_stage_state(stage, ty, value),
    {
        if d3d9::D3DVERTEXTEXTURESAMPLER0 <= stage && stage <= d3d9::D3DVERTEXTEXTURESAMPLER3 {
            let stage = stage - d3d9::D3DVERTEXTEXTURESAMPLER0;
            self.vertex.set_texture_stage_state(stage, ty, value);
        } else {
            self.pixel.set_texture_stage_state(stage, ty, value);
        }
    }

    /// Retrieves a state of the texture stage of a unit.
    pub fn get_texture_stage_state(&self, stage: u32, ty: u32) -> (res: u32)
        ensures
            res == self@.texture_stage_state(stage, ty),
    {
        if d3d9::D3DVERTEXTEXTURESAMPLER0 <= stage && stage <= d3d9::D3DVERTEXTEXTURESAMPLER3 {
            let stage = stage - d3d9::D3DVERTEXTEXTURESAMPLER0;
            self.vertex.get_texture_stage_state(stage, ty)
        } else {
            self.pixel.get_texture_stage_state(stage, ty)
        }
    }

    /// Binds a texture to a stage. A stage index that names no slot is
    /// ignored.
    pub fn set_texture(&mut self, stage: u32, texture: usize)
        ensures
            final(self)@ == old(self)@.with_texture(stage, texture),
    {
        let mut stage = stage;
        if d3d9::D3DVERTEXTEXTURESAMPLER0 <= stage && stage <= d3d9::D3DVERTEXTEXTURESAMPLER3 {
            stage = 16 + (stage - d3d9::D3DVERTEXTEXTURESAMPLER0);
        }
        if stage < 20 {
            self.textures[stage as usize] = texture;
        }
    }

    /// Retrieves the texture bound to a stage, or zero.
    pub fn get_texture(&self, stage: u32) -> (res: usize)
        ensures
            res == self@.texture(stage),
    {
        let mut stage = stage;
        if d3d9::D3DVERTEXTEXTURESAMPLER0 <= stage && stage <= d3d9::D3DVERTEXTEXTURESAMPLER3 {
            stage = 16 + (stage - d3d9::D3DVERTEXTEXTURESAMPLER0);
        }
        if stage < 20 {
            self.textures[stage as usize]
        } else {
            0
        }
    }

    /// Sets the current vertex declaration. The state names the declaration
    /// and does not keep it alive.
    pub fn set_vertex_declaration(&mut self, decl: usize)
        ensures
            final(self)@ == (DeviceStateView {
                vertex: VertexState { vertex_decl: decl, ..old(self)@.vertex },
                ..old(self)@
            }),
    {
        self.vertex.vertex_decl = decl;
    }

    /// Gets the current vertex declaration, or zero.
    pub fn get_vertex_declaration(&self) -> (res: usize)
        ensures
            res == self@.vertex.vertex_decl,
    {
        self.vertex.vertex_decl
    }

    /// Sets the viewport.
    pub fn set_viewport(&mut self, vp: &Viewport)
        ensures
            final(self)@ == (DeviceStateView { viewport: *vp, ..old(self)@ }),
    {
        self.viewport = *vp;
    }

    /// Retrieves the currently set viewport.
    pub fn get_viewport(&self) -> (res: Viewport)
        ensures
            res == self@.viewport,
    {
        self.viewport
    }

    /// Sets a transform.
    pub fn set_transform(&mut self, ty: u32, value: Matrix)
        ensures
            final(self)@ == (DeviceStateView {
                transforms: old(self)@.transforms.insert(ty, value),
                ..old(self)@
            }),
    {
        broadcast use vstd::std_specs::hash::group_hash_axioms;

        self.transforms.insert(ty, value);
    }

    /// Retrieves a transform: the one that was set, or the identity.
    pub fn get_transform(&self, ty: u32) -> (res: Matrix)
        ensures
            res.m@ == self@.transform(ty),
    {
        broadcast use vstd::std_specs::hash::group_hash_axioms;

        match self.transforms.get(&ty) {
            Some(value) => *value,
            None => {
                let res = Matrix {
                    m: [
                        FLOAT_ONE, 0, 0, 0,
                        0, FLOAT_ONE, 0, 0,
                        0, 0, FLOAT_ONE, 0,
                        0, 0, 0, FLOAT_ONE,
                    ],
                };
                assert(res.m@ =~= identity_matrix());
                res
            },
        }
    }

    /// Sets the material.
    pub fn set_material(&mut self, mat: &Material)
        ensures
            final(self)@ == (DeviceStateView { material: *mat, ..old(self)@ }),
    {
        self.material = *mat;
    }

    /// Retrieves the material.
    pub fn get_material(&self) -> (res: Material)
        ensures
            res == self@.material,
    {
        self.material
    }
}

impl Default for DeviceState {
    /// The state of a device on which nothing was set yet.
    fn default() -> (res: Self)
        ensures
            res@.is_initial(),
            res@.viewport == (Viewport { x: 0, y: 0, width: 0, height: 0, min_z: 0, max_z: 0 }),
            res@.render_state(d3d9::D3DRS_CULLMODE) == d3d9::D3DCULL_CCW,
            res@.render_state(d3d9::D3DRS_FOGTABLEMODE) == d3d9::D3DFOG_NONE,
            res@.render_state(d3d9::D3DRS_MULTISAMPLEANTIALIAS) == 1,
            res@.render_state(d3d9::D3DRS_POINTSIZE) == FLOAT_ONE,
            res@.texture_stage_state(0, d3d9::D3DTSS_COLOROP) == d3d9::D3DTOP_MODULATE,
            res@.texture_stage_state(0, d3d9::D3DTSS_ALPHAOP) == d3d9::D3DTOP_SELECTARG1,
            forall|stage: u32|
                1 <= stage < PIXEL_SAMPLERS ==> #[trigger] res@.texture_stage_state(
                    stage,
                    d3d9::D3DTSS_COLOROP,
                ) == d3d9::D3DTOP_DISABLE,
    {
        let zero = ColorValue { r: 0, g: 0, b: 0, a: 0 };
        let mut state = Self {
            vertex: VertexState::default(),
            pixel: PixelState::default(),
            textures: [0; 20],
            // The default viewport depends on the default render target's size.
            viewport: Viewport { x: 0, y: 0, width: 0, height: 0, min_z: 0, max_z: 0 },
            transforms: HashMap::new(),
            material: Material {
                diffuse: zero,
                ambient: zero,
                specular: zero,
                emissive: zero,
                power: 0,
            },
        };

        let ghost fresh = state.pixel;

        // The first texture stage has a different default state.
        state.pixel.set_texture_stage_state(0, d3d9::D3DTSS_COLOROP, d3d9::D3DTOP_MODULATE);
        let ghost modulated = state.pixel;
        state.pixel.set_texture_stage_state(0, d3d9::D3DTSS_ALPHAOP, d3d9::D3DTOP_SELECTARG1);

        proof {
            let first = fresh.ts[0].with(d3d9::D3DTSS_COLOROP, d3d9::D3DTOP_MODULATE);
            assert(modulated.ts[0] == first);
            assert(state.pixel.ts[0] == first.with(d3d9::D3DTSS_ALPHAOP, d3d9::D3DTOP_SELECTARG1));
            assert(state.pixel.rs == fresh.rs);
            assert(state.pixel.ss == fresh.ss);
            assert forall|stage: u32, ty: u32| #[trigger]
                state@.texture_stage_state(stage, ty) == (if is_vertex_sampler(stage) {
                    stage_default(ty)
                } else {
                    pixel_stage_default(stage, ty)
                }) by {
                if is_vertex_sampler(stage) {
                    assert(state.vertex.ts[vertex_unit(stage) as int].state(ty) == stage_default(
                        ty,
                    ));
                } else if stage == 0 {
                    assert(fresh.ts[0].state(ty) == stage_default(ty));
                } else if stage < PIXEL_SAMPLERS {
                    assert(state.pixel.ts[stage as int] == fresh.ts[stage as int]);
                    assert(fresh.ts[stage as int].state(ty) == stage_default(ty));
                }
            }
            assert forall|key: u32| #[trigger]
                state@.render_state(key) == render_state_default(key) by {
                assert(state.pixel.render_state(key) == fresh.render_state(key));
                assert(fresh.render_state(key) == (if PixelState::tracks(key) {
                    Some(pixel_render_state_default(key))
                } else {
                    None
                }));
                assert(state.vertex.render_state(key) == (if VertexState::tracks(key) {
                    Some(vertex_render_state_default(key))
                } else {
                    None
                }));
            }
        }

        state
    }
}

/// The material of which every channel and the power are zero.
pub open spec fn zero_material() -> Material {
    let zero = ColorValue { r: 0, g: 0, b: 0, a: 0 };
    Material { diffuse: zero, ambient: zero, specular: zero, emissive: zero, power: 0 }
}

/// A state on which nothing was set yet reports the values with which the
/// legacy interface starts: it culls counter-clockwise, has no table fog,
/// antialiases multisampled targets, draws points of size one, modulates
/// colour and selects the first alpha argument in the first texture stage
/// and has every other texture stage disabled.
pub proof fn initial_state_reports_defaults(state: DeviceStateView)
    requires
        state.is_initial(),
    ensures
        state.render_state(d3d9::D3DRS_CULLMODE) == d3d9::D3DCULL_CCW,
        state.render_state(d3d9::D3DRS_FOGTABLEMODE) == d3d9::D3DFOG_NONE,
        state.render_state(d3d9::D3DRS_MULTISAMPLEANTIALIAS) == 1,
        state.render_state(d3d9::D3DRS_POINTSIZE) == FLOAT_ONE,
        state.texture_stage_state(0, d3d9::D3DTSS_COLOROP) == d3d9::D3DTOP_MODULATE,
        state.texture_stage_state(0, d3d9::D3DTSS_ALPHAOP) == d3d9::D3DTOP_SELECTARG1,
        forall|stage: u32|
            1 <= stage < PIXEL_SAMPLERS ==> #[trigger] state.texture_stage_state(
                stage,
                d3d9::D3DTSS_COLOROP,
            ) == d3d9::D3DTOP_DISABLE,
{
}

/// Whether nothing was set yet does not depend on the viewport.
pub proof fn initial_state_whatever_the_viewport(state: DeviceStateView, viewport: Viewport)
    requires
        state.is_initial(),
    ensures
        (DeviceStateView { viewport, ..state }).is_initial(),
{
    let moved = DeviceStateView { viewport, ..state };
    assert forall|key: u32| #[trigger] moved.render_state(key) == render_state_default(key) by {
        assert(moved.render_state(key) == state.render_state(key));
    }
    assert forall|sampler: u32, ty: u32| #[trigger]
        moved.sampler_state(sampler, ty) == (if is_vertex_sampler(sampler) || sampler
            < PIXEL_SAMPLERS {
            sampler_default(ty)
        } else {
            0
        }) by {
        assert(moved.sampler_state(sampler, ty) == state.sampler_state(sampler, ty));
    }
    assert forall|stage: u32, ty: u32| #[trigger]
        moved.texture_stage_state(stage, ty) == (if is_vertex_sampler(stage) {
            stage_default(ty)
        } else {
            pixel_stage_default(stage, ty)
        }) by {
        assert(moved.texture_stage_state(stage, ty) == state.texture_stage_state(stage, ty));
    }
    assert forall|stage: u32| #[trigger] moved.texture(stage) == 0 by {
        assert(moved.texture(stage) == state.texture(stage));
    }
    assert forall|ty: u32| #[trigger] moved.transform(ty) == identity_matrix() by {
        assert(moved.transform(ty) == state.transform(ty));
    }
}

/// A sampler state that was set on a vertex texture sampler reads as the
/// value it was set to, and is the state of the unit of the vertex block
/// that the sampler names: the indices 257 to 260 name the units 0 to 3, in
/// setting as in getting.
pub proof fn vertex_sampler_remap(state: DeviceStateView, sampler: u32, ty: u32, value: u32)
    requires
        is_vertex_sampler(sampler),
    ensures
        257 <= sampler <= 260,
        state.sampler_state(sampler, ty) == state.vertex.sampler_state(
            (sampler - 257) as u32,
            ty,
        ),
        state.with_sampler_state(sampler, ty, value).sampler_state(sampler, ty)
            == state.with_sampler_state(sampler, ty, value).vertex.sampler_state(
            (sampler - 257) as u32,
            ty,
        ),
        state.with_sampler_state(sampler, ty, value).pixel == state.pixel,
        is_sampler_state_type(ty) ==> state.with_sampler_state(sampler, ty, value).sampler_state(
            sampler,
            ty,
        ) == value,
        !is_sampler_state_type(ty) ==> state.with_sampler_state(sampler, ty, value) == state,
{
    let unit = vertex_unit(sampler);
    let after = state.vertex.with_sampler_state(unit, ty, value);
    assert(after.ss[unit as int] == state.vertex.ss[unit as int].with(ty, value));
    if !is_sampler_state_type(ty) {
        assert(after.ss =~= state.vertex.ss);
    }
}

/// A sampler state that was set on a sampler of the pixel stage reads as
/// the value it was set to, and the vertex block is not touched.
pub proof fn pixel_sampler_set_then_get(state: DeviceStateView, sampler: u32, ty: u32, value: u32)
    requires
        sampler < PIXEL_SAMPLERS,
        is_sampler_state_type(ty),
    ensures
        state.with_sampler_state(sampler, ty, value).sampler_state(sampler, ty) == value,
        state.with_sampler_state(sampler, ty, value).vertex == state.vertex,
{
    let after = state.pixel.with_sampler_state(sampler, ty, value);
    assert(after.ss[sampler as int] == state.pixel.ss[sampler as int].with(ty, value));
}

/// A texture stage state that was set reads as the value it was set to, on
/// the stages of the pixel block and on those of the vertex block.
pub proof fn stage_state_set_then_get(state: DeviceStateView, stage: u32, ty: u32, value: u32)
    requires
        is_vertex_sampler(stage) || stage < PIXEL_SAMPLERS,
        is_texture_stage_state_type(ty),
    ensures
        state.with_texture_stage_state(stage, ty, value).texture_stage_state(stage, ty) == value,
{
    if is_vertex_sampler(stage) {
        let unit = vertex_unit(stage);
        let after = state.vertex.with_texture_stage_state(unit, ty, value);
        assert(after.ts[unit as int] == state.vertex.ts[unit as int].with(ty, value));
    } else {
        let after = state.pixel.with_texture_stage_state(stage, ty, value);
        assert(after.ts[stage as int] == state.pixel.ts[stage as int].with(ty, value));
    }
}

/// A render state that was set reads as the value it was set to if one of
/// the blocks tracks it, and as zero otherwise.
pub proof fn render_state_set_then_get(state: DeviceStateView, key: u32, value: u32)
    ensures
        state.with_render_state(key, value).render_state(key) == (if VertexState::tracks(key)
            || PixelState::tracks(key) {
            value
        } else {
            0
        }),
{
}

} // verus!

