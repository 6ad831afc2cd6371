//! Pipeline state support structures.

pub mod unit;

pub mod pixel;
pub use self::pixel::{
    pixel_render_state_default, pixel_render_state_slot, PixelState, PIXEL_RENDER_STATES,
    PIXEL_SAMPLERS,
};

pub mod vertex;
pub use self::vertex::{
    vertex_render_state_default, vertex_render_state_slot, VertexState, VERTEX_RENDER_STATES,
    VERTEX_SAMPLERS,
};

pub mod device;
pub use self::device::{
    identity_matrix, is_vertex_sampler, pixel_stage_default, render_state_default, texture_slot,
    vertex_unit, zero_material, DeviceState, DeviceStateView, TEXTURE_SLOTS,
};
pub use self::device::{
    initial_state_reports_defaults, initial_state_whatever_the_viewport,
    pixel_sampler_set_then_get, render_state_set_then_get, stage_state_set_then_get,
    vertex_sampler_remap,
};

pub mod block;
pub use self::block::StateBlock;
