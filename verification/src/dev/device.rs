//! The logical graphics device: what is bound to it, and what it is asked
//! to create.
//!
//! The device owns the set of render targets, the depth / stencil buffer,
//! the implicit swap chains and the render state. Whenever a binding
//! changes it says how the outputs of the modern context are to be bound,
//! and resets the viewport to the first render target.

use vstd::prelude::*;
use crate::abi::d3d11;
use crate::abi::d3d11::{BufferDesc, ResourceBox, Texture2dDesc};
use crate::abi::d3d9;
use crate::abi::d3d9::{Caps, CreationParameters, Point, PresentParameters, Rect, Viewport};
use crate::abi::dxgi::SwapChainDesc;
use crate::abi::{FLOAT_ONE, FLOAT_ZERO};
use crate::base::adapter::{caps_of, device_caps};
use crate::base::enums::{MemoryPool, ResourceType, UsageFlags};
use crate::d3d11::buffer::buffer_desc_of;
use crate::d3d11::texture::{output_desc_of, texture_desc_of};
use crate::d3d11::{Buffer, DeviceContext, Texture2D};
use crate::dev::buffer::{IndexBuffer, VertexBuffer};
use crate::dev::resource::Resource;
use crate::dev::state::{
    initial_state_whatever_the_viewport, DeviceState, DeviceStateView, StateBlock,
};
use crate::dev::surface::{Surface, SurfaceData};
use crate::dev::swapchain::{
    can_describe, resolved_parameters, swap_chain_desc_of, swap_chain_notes_of, PresentRequest,
    SwapChain, SwapChainNotes,
};
use crate::dev::texture::Texture;
use crate::error::{Error, Result};

verus! {

/// The largest number of render targets that can be bound at once.
pub const MAX_RENDER_TARGETS: usize = 8;

/// How the outputs of the modern context are to be bound.
#[derive(Debug, Copy, Clone, PartialEq, Eq)]
pub struct OutputBinding {
    /// The number of render target slots in use.
    pub count: u32,
    /// The view of each bound render target; zero for an empty slot.
    pub render_target_views: [usize; 8],
    /// The view of the depth / stencil buffer, or zero.
    pub depth_stencil_view: usize,
}

/// A copy of a region between two subresources that the platform is asked
/// for.
#[derive(Debug, Copy, Clone, PartialEq, Eq, Structural)]
pub struct CopyRequest {
    pub dest_resource: usize,
    pub dest_subresource: u32,
    pub dest_x: u32,
    pub dest_y: u32,
    pub dest_z: u32,
    pub src_resource: usize,
    pub src_subresource: u32,
    /// The region to copy, or nothing for the whole subresource.
    pub src_box: Option<ResourceBox>,
}

/// The 32 bits of a signed number, read as an unsigned one.
pub open spec fn unsigned_of(value: i32) -> u32 {
    if value < 0 {
        (value + 0x1_0000_0000) as u32
    } else {
        value as u32
    }
}

/// The region of a surface that a rectangle names.
pub open spec fn box_of(r: Rect) -> ResourceBox {
    ResourceBox {
        left: unsigned_of(r.left),
        top: unsigned_of(r.top),
        front: 0,
        right: unsigned_of(r.right),
        bottom: unsigned_of(r.bottom),
        back: 1,
    }
}

/// The view through which a surface is rendered to, or zero.
pub open spec fn render_target_view_of(rt: Option<Surface>) -> usize {
    match rt {
        Some(Surface { data: SurfaceData::RenderTarget(view), .. }) => view,
        _ => 0,
    }
}

/// The view through which a surface is used as depth / stencil buffer, or
/// zero.
pub open spec fn depth_stencil_view_of(ds: Option<Surface>) -> usize {
    match ds {
        Some(Surface { data: SurfaceData::DepthStencil(view), .. }) => view,
        _ => 0,
    }
}

/// The viewport that covers a surface, with the whole range of depths.
pub open spec fn full_viewport(rt: Surface) -> Viewport {
    Viewport {
        x: 0,
        y: 0,
        width: rt.texture.desc.width,
        height: rt.texture.desc.height,
        min_z: FLOAT_ZERO,
        max_z: FLOAT_ONE,
    }
}

/// The render target slots after a surface, or nothing, is put into slot
/// `i`. There are as many slots as before, or as many as it takes to have a
/// slot `i`; every other slot is as it was, and the slots that had to be
/// added are empty.
pub open spec fn install(rts: Seq<Option<Surface>>, i: int, rt: Option<Surface>) -> Seq<
    Option<Surface>,
> {
    Seq::new(
        (if rts.len() > i + 1 {
            rts.len() as int
        } else {
            i + 1
        }) as nat,
        |j: int|
            if j == i {
                rt
            } else if j < rts.len() {
                rts[j]
            } else {
                None
            },
    )
}

/// What a [`Device`] holds.
pub struct DeviceView {
    /// The name under which the resources of the device refer back to it.
    pub id: usize,
    /// The interface which created this device.
    pub parent: usize,
    /// The ordinal of the adapter this device represents.
    pub adapter: u32,
    /// The device of the modern interface.
    pub device: usize,
    /// The context in which commands are run.
    pub ctx: usize,
    /// The creation parameters.
    pub creation_params: CreationParameters,
    /// The factory which was used to create this device.
    pub factory: usize,
    /// The window associated with this device.
    pub window: usize,
    /// The implicit swap chains.
    pub swap_chains: Seq<SwapChain>,
    /// The render target slots.
    pub render_targets: Seq<Option<Surface>>,
    /// The depth / stencil buffer.
    pub depth_stencil: Option<Surface>,
    /// The render state.
    pub state: DeviceStateView,
}

impl DeviceView {
    /// What always holds of a device: it has its implicit swap chain, at
    /// least one and at most eight render target slots of which the first
    /// is never empty, and what is bound can be bound: a render target has
    /// a render target view, the depth / stencil buffer a depth / stencil
    /// view.
    pub open spec fn wf(self) -> bool {
        &&& self.swap_chains.len() >= 1
        &&& 1 <= self.render_targets.len() <= MAX_RENDER_TARGETS
        &&& self.render_targets[0] is Some
        &&& forall|i: int|
            0 <= i < self.render_targets.len() && self.render_targets[i] is Some
                ==> #[trigger] self.render_targets[i].unwrap().data is RenderTarget
        &&& self.depth_stencil is Some ==> self.depth_stencil.unwrap().data is DepthStencil
    }

    /// The view bound to an output slot of the modern context: that of the
    /// render target in the slot, zero for an empty slot.
    pub open spec fn bound_view(self, slot: int) -> usize {
        if 0 <= slot < self.render_targets.len() {
            render_target_view_of(self.render_targets[slot])
        } else {
            0
        }
    }

    /// Whether a binding of the outputs is the one that this device asks
    /// for.
    pub open spec fn is_bound_as(self, binding: OutputBinding) -> bool {
        &&& binding.count == self.render_targets.len()
        &&& forall|slot: int|
            0 <= slot < MAX_RENDER_TARGETS ==> #[trigger] binding.render_target_views[slot]
                == self.bound_view(slot)
        &&& binding.depth_stencil_view == depth_stencil_view_of(self.depth_stencil)
    }

    /// This device with the viewport reset to the first render target.
    pub open spec fn with_full_viewport(self) -> DeviceView
        recommends
            self.wf(),
    {
        DeviceView {
            state: DeviceStateView {
                viewport: full_viewport(self.render_targets[0].unwrap()),
                ..self.state
            },
            ..self
        }
    }

    /// Whether a surface, or nothing, can be put into a render target slot.
    pub open spec fn can_set_render_target(i: u32, rt: Option<Surface>) -> bool {
        &&& i < MAX_RENDER_TARGETS
        &&& i == 0 ==> rt is Some
        &&& rt is Some ==> rt.unwrap().data is RenderTarget
    }

    /// Whether a surface, or nothing, can be bound as depth / stencil
    /// buffer.
    pub open spec fn can_set_depth_stencil(ds: Option<Surface>) -> bool {
        ds is Some ==> ds.unwrap().data is DepthStencil
    }
}

/// Structure representing a logical graphics device.
pub struct Device {
    id: usize,
    parent: usize,
    adapter: u32,
    device: crate::d3d11::Device,
    ctx: DeviceContext,
    creation_params: CreationParameters,
    factory: usize,
    window: usize,
    swap_chains: Vec<SwapChain>,
    render_targets: Vec<Option<Surface>>,
    depth_stencil: Option<Surface>,
    istate: DeviceState,
}

impl View for Device {
    type V = DeviceView;

    closed spec fn view(&self) -> DeviceView {
        DeviceView {
            id: self.id,
            parent: self.parent,
            adapter: self.adapter,
            device: self.device.device,
            ctx: self.ctx.ctx,
            creation_params: self.creation_params,
            factory: self.factory,
            window: self.window,
            swap_chains: self.swap_chains@,
            render_targets: self.render_targets@,
            depth_stencil: self.depth_stencil,
            state: self.istate@,
        }
    }
}

/// The window that a device renders to: the device window if there is one,
/// or else the focus window.
pub open spec fn window_of(pp: PresentParameters, cp: CreationParameters) -> Option<usize> {
    if pp.device_window != 0 {
        Some(pp.device_window)
    } else if cp.focus_window != 0 {
        Some(cp.focus_window)
    } else {
        None
    }
}

/// The description of the depth / stencil buffer that a device creates for
/// itself, if the presentation parameters ask for one. It has the size of
/// the back buffer.
pub open spec fn auto_depth_stencil_of(pp: PresentParameters) -> Option<Result<Texture2dDesc>> {
    if pp.enable_auto_depth_stencil != 0 {
        Some(
            output_desc_of(
                (pp.back_buffer_width, pp.back_buffer_height),
                pp.auto_depth_stencil_format,
                crate::abi::dxgi::SampleDesc { count: 1, quality: 0 },
                d3d11::D3D11_BIND_DEPTH_STENCIL,
            ),
        )
    } else {
        None
    }
}

fn unsigned(value: i32) -> (res: u32)
    ensures
        res == unsigned_of(value),
{
    if value < 0 {
        (value as i64 + 0x1_0000_0000) as u32
    } else {
        value as u32
    }
}

impl Device {
    /// What always holds of a device.
    pub open spec fn wf(&self) -> bool {
        self@.wf()
    }

    /// Checks what always holds of a device.
    pub fn is_well_formed(&self) -> (res: bool)
        ensures
            res == self.wf(),
    {
        let slots = self.render_targets.len();
        if self.swap_chains.len() < 1 || slots < 1 || slots > MAX_RENDER_TARGETS {
            return false;
        }
        if self.render_targets[0].is_none() {
            return false;
        }
        let mut i: usize = 0;
        while i < slots
            invariant
                slots == self.render_targets@.len(),
                i <= slots,
                forall|j: int|
                    0 <= j < i && self@.render_targets[j] is Some
                        ==> #[trigger] self@.render_targets[j].unwrap().data is RenderTarget,
            decreases slots - i,
        {
            if let Some(rt) = self.render_targets[i] {
                if rt.render_target_view().is_none() {
                    return false;
                }
            }
            i = i + 1;
        }
        match self.depth_stencil {
            Some(ds) => ds.depth_stencil_view().is_some(),
            None => true,
        }
    }

    /// Chooses the window that a device renders to.
    pub fn select_window(pp: &PresentParameters, cp: &CreationParameters) -> (res: Result<usize>)
        ensures
            res == (match window_of(*pp, *cp) {
                Some(window) => Ok::<usize, Error>(window),
                None => Err::<usize, Error>(Error::InvalidCall),
            }),
    {
        // We're supposed to use the device window if available, or
        // fall back to the focus window otherwise.
        if pp.device_window != 0 {
            Ok(pp.device_window)
        } else if cp.focus_window != 0 {
            Ok(cp.focus_window)
        } else {
            Err(Error::InvalidCall)
        }
    }

    /// Says whether a device creates a depth / stencil buffer for itself,
    /// and from what description. To be asked once the swap chain is
    /// described, since the buffer has the size of the back buffer.
    pub fn auto_depth_stencil(pp: &PresentParameters) -> (res: Option<Result<Texture2dDesc>>)
        ensures
            res == auto_depth_stencil_of(*pp),
    {
        if pp.enable_auto_depth_stencil != 0 {
            Some(Texture2D::new_ds((pp.back_buffer_width, pp.back_buffer_height), pp.auto_depth_stencil_format))
        } else {
            None
        }
    }

    /// Creates a new device from what was created for it: its implicit swap
    /// chain, the render target of the back buffer of that chain, and the
    /// depth / stencil buffer if it has one. Binds them, and says how the
    /// outputs of the modern context are to be bound.
    pub fn new(
        id: usize,
        parent: usize,
        adapter: u32,
        device: crate::d3d11::Device,
        ctx: DeviceContext,
        cp: CreationParameters,
        factory: usize,
        window: usize,
        swap_chain: SwapChain,
        render_target: Surface,
        depth_stencil: Option<Surface>,
    ) -> (res: Result<(Device, OutputBinding)>)
        ensures
            !(render_target.data is RenderTarget) || !DeviceView::can_set_depth_stencil(
                depth_stencil,
            ) ==> res is Err && res->Err_0 == Error::InvalidCall,
            render_target.data is RenderTarget && DeviceView::can_set_depth_stencil(depth_stencil)
                ==> res is Ok && ({
                let (dev, binding) = res->Ok_0;
                &&& dev.wf()
                &&& dev@.id == id
                &&& dev@.parent == parent
                &&& dev@.adapter == adapter
                &&& dev@.device == device.device
                &&& dev@.ctx == ctx.ctx
                &&& dev@.creation_params == cp
                &&& dev@.factory == factory
                &&& dev@.window == window
                &&& dev@.swap_chains == seq![swap_chain]
                &&& dev@.render_targets == seq![Some(render_target)]
                &&& dev@.depth_stencil == depth_stencil
                &&& dev@.state.is_initial()
                &&& dev@.state.viewport == full_viewport(render_target)
                &&& dev@.is_bound_as(binding)
            }),
    {
        if render_target.render_target_view().is_none() {
            return Err(Error::InvalidCall);
        }
        if let Some(ds) = depth_stencil {
            if ds.depth_stencil_view().is_none() {
                return Err(Error::InvalidCall);
            }
        }

        let istate = DeviceState::default();
        let ghost istate_view = istate@;

        let mut swap_chains: Vec<SwapChain> = Vec::new();
        swap_chains.push(swap_chain);
        let mut render_targets: Vec<Option<Surface>> = Vec::new();
        render_targets.push(Some(render_target));

        let mut dev = Self {
            id,
            parent,
            adapter,
            device,
            ctx,
            creation_params: cp,
            factory,
            window,
            swap_chains,
            render_targets,
            depth_stencil,
            istate,
        };
        assert(dev@.swap_chains =~= seq![swap_chain]);
        assert(dev@.render_targets =~= seq![Some(render_target)]);

        // Now that we have an initial RT / DS buffer, we need to set the
        // state of the modern context.
        let binding = dev.update_render_targets();
        proof {
            initial_state_whatever_the_viewport(istate_view, full_viewport(render_target));
        }

        Ok((dev, binding))
    }

    /// The name under which the resources of the device refer back to it.
    pub fn id(&self) -> (res: usize)
        ensures
            res == self@.id,
    {
        self.id
    }

    /// Retrieves the ordinal of the adapter of this device.
    pub fn adapter(&self) -> (res: u32)
        ensures
            res == self@.adapter,
    {
        self.adapter
    }

    /// Retrieves the immediate device context.
    pub fn device_context(&self) -> (res: &DeviceContext)
        ensures
            res.ctx == self@.ctx,
    {
        &self.ctx
    }

    /// Tries to retrieve a swap chain based on the index.
    fn check_swap_chain(&self, sc: u32) -> (res: Result<&SwapChain>)
        ensures
            res == (if sc < self@.swap_chains.len() {
                Ok::<&SwapChain, Error>(&self@.swap_chains[sc as int])
            } else {
                Err::<&SwapChain, Error>(Error::InvalidCall)
            }),
    {
        if (sc as usize) < self.swap_chains.len() {
            Ok(&self.swap_chains[sc as usize])
        } else {
            Err(Error::InvalidCall)
        }
    }

    /// Takes what came of the creation of the view of a render target, and
    /// wraps the texture and the view in a surface.
    pub fn create_render_target_helper(&self, texture: Texture2D, result: i32, view: usize) -> (res:
        Result<Surface>)
        ensures
            res == (if result == 0 {
                Ok::<Surface, Error>(render_target_surface(self@.id, texture, view))
            } else {
                Err::<Surface, Error>(Error::DriverInternalError)
            }),
    {
        Self::render_target_surface(self.id, texture, result, view)
    }

    /// Takes what came of the creation of the view of a render target of
    /// the device named `id`, and wraps the texture and the view in a
    /// surface.
    pub fn render_target_surface(id: usize, texture: Texture2D, result: i32, view: usize) -> (res:
        Result<Surface>)
        ensures
            res == (if result == 0 {
                Ok::<Surface, Error>(render_target_surface(id, texture, view))
            } else {
                Err::<Surface, Error>(Error::DriverInternalError)
            }),
    {
        // Create a render target view into the texture.
        let rt_view = match texture.create_rt_view(result, view) {
            Ok(view) => view,
            Err(e) => {
                return Err(e);
            },
        };

        let data = SurfaceData::RenderTarget(rt_view);
        let usage = UsageFlags { bits: UsageFlags::RENDER_TARGET };
        Ok(Surface::new(id, texture, 0, usage, MemoryPool::Default, data))
    }

    /// Takes what came of the creation of the view of a depth / stencil
    /// buffer of the device named `id`, and wraps the texture and the view
    /// in a surface.
    pub fn depth_stencil_surface(id: usize, texture: Texture2D, result: i32, view: usize) -> (res:
        Result<Surface>)
        ensures
            res == (if result == 0 {
                Ok::<Surface, Error>(depth_stencil_surface(id, texture, view))
            } else {
                Err::<Surface, Error>(Error::DriverInternalError)
            }),
    {
        let ds_view = match texture.create_ds_view(result, view) {
            Ok(view) => view,
            Err(e) => {
                return Err(e);
            },
        };

        let data = SurfaceData::DepthStencil(ds_view);
        let usage = UsageFlags { bits: UsageFlags::DEPTH_STENCIL };
        Ok(Surface::new(id, texture, 0, usage, MemoryPool::Default, data))
    }

    /// Retrieves a bound render target.
    fn check_render_target(&self, i: u32) -> (res: Result<Surface>)
        ensures
            res == (if i < self@.render_targets.len() && self@.render_targets[i as int] is Some {
                Ok::<Surface, Error>(self@.render_targets[i as int].unwrap())
            } else {
                Err::<Surface, Error>(Error::NotFound)
            }),
    {
        if (i as usize) < self.render_targets.len() {
            match self.render_targets[i as usize] {
                Some(rt) => Ok(rt),
                None => Err(Error::NotFound),
            }
        } else {
            Err(Error::NotFound)
        }
    }

    /// Says how the render target views and the depth / stencil view are to
    /// be bound in the modern context, and resets the viewport to the first
    /// render target.
    pub fn update_render_targets(&mut self) -> (binding: OutputBinding)
        requires
            old(self).wf(),
        ensures
            final(self)@ == old(self)@.with_full_viewport(),
            final(self).wf(),
            final(self)@.is_bound_as(binding),
    {
        let num = self.render_targets.len();

        let mut rt_views: [usize; 8] = [0; 8];
        let mut i: usize = 0;
        while i < num
            invariant
                num == self.render_targets@.len(),
                num <= MAX_RENDER_TARGETS,
                i <= num,
                *self == *old(self),
                self.wf(),
                forall|slot: int| 0 <= slot < i ==> #[trigger] rt_views[slot] == self@.bound_view(slot),
                forall|slot: int| i <= slot < MAX_RENDER_TARGETS ==> #[trigger] rt_views[slot] == 0,
            decreases num - i,
        {
            if let Some(rt) = self.render_targets[i] {
                let view = match rt.render_target_view() {
                    Some(view) => view,
                    None => 0,
                };
                rt_views[i] = view;
            }
            i = i + 1;
        }

        let ds_view = match self.depth_stencil {
            Some(ds) => match ds.depth_stencil_view() {
                Some(view) => view,
                None => 0,
            },
            None => 0,
        };

        // We also need to update the viewport.
        let (width, height) = match self.render_targets[0] {
            Some(rt) => {
                let desc = rt.texture.desc();
                (desc.width, desc.height)
            },
            None => (0, 0),
        };

        let vp = Viewport { x: 0, y: 0, width, height, min_z: FLOAT_ZERO, max_z: FLOAT_ONE };

        self.istate.set_viewport(&vp);

        OutputBinding { count: num as u32, render_target_views: rt_views, depth_stencil_view: ds_view }
    }

    // -- Device status functions --

    /// Checks that the device has not yet been lost / reset.
    pub fn test_cooperative_level(&self) -> (res: Error)
        ensures
            res == Error::Success,
    {
        // Even if the device were lost, we wouldn't be able to do much.
        Error::Success
    }

    /// Asks the driver to evict all managed resources from video memory.
    pub fn evict_managed_resources(&self) -> (res: Error)
        ensures
            res == Error::Success,
    {
        // Do nothing. The modern driver handles everything.
        Error::Success
    }

    // -- Creation parameters functions --

    /// Returns the parent interface.
    pub fn get_direct_3_d(&self) -> (res: usize)
        ensures
            res == self@.parent,
    {
        self.parent
    }

    /// Returns the caps of this device.
    pub fn get_device_caps(&self) -> (res: Caps)
        ensures
            res == caps_of(self@.adapter),
    {
        device_caps(self.adapter)
    }

    /// Returns the creation parameters of this device.
    pub fn get_creation_parameters(&self) -> (res: CreationParameters)
        ensures
            res == self@.creation_params,
    {
        self.creation_params
    }

    // -- Swap chain functions --

    /// Describes a new swap chain for this device, which presents into the
    /// window of the device, and fills in the presentation parameters that
    /// were left open.
    pub fn create_additional_swap_chain(&self, pp: &mut PresentParameters, client: Rect) -> (res:
        Result<(SwapChainDesc, SwapChainNotes)>)
        ensures
            can_describe(*old(pp)) ==> res == Ok::<(SwapChainDesc, SwapChainNotes), Error>(
                (
                    swap_chain_desc_of(*old(pp), self@.window, client),
                    swap_chain_notes_of(*old(pp)),
                ),
            ) && *final(pp) == resolved_parameters(*old(pp), client),
            !can_describe(*old(pp)) ==> res == Err::<(SwapChainDesc, SwapChainNotes), Error>(
                Error::InvalidCall,
            ) && *final(pp) == *old(pp),
    {
        SwapChain::describe(pp, self.window, client)
    }

    /// Returns an implicit swap chain.
    pub fn get_swap_chain(&self, sc: u32) -> (res: Result<SwapChain>)
        ensures
            res == (if sc < self@.swap_chains.len() {
                Ok::<SwapChain, Error>(self@.swap_chains[sc as int])
            } else {
                Err::<SwapChain, Error>(Error::InvalidCall)
            }),
    {
        match self.check_swap_chain(sc) {
            Ok(sc) => Ok(*sc),
            Err(e) => Err(e),
        }
    }

    /// Returns the number of implicit swap chains.
    pub fn get_number_of_swap_chains(&self) -> (res: u32)
        ensures
            res == 1,
    {
        1
    }

    // The functions below all operate on the implicit swap chains.

    /// Says how the implicit swap chains are to be presented: each of them
    /// in turn. Only the whole surface can be presented, and only to the
    /// window of the device.
    pub fn present(&self, src: usize, dest: usize, wnd: usize, dirty: usize) -> (res: Result<
        Vec<PresentRequest>,
    >)
        ensures
            src != 0 || dest != 0 || dirty != 0 || wnd != 0 ==> res is Err && res->Err_0
                == Error::NotAvailable,
            src == 0 && dest == 0 && dirty == 0 && wnd == 0 ==> res is Ok && res->Ok_0@.len()
                == self@.swap_chains.len() && forall|i: int|
                0 <= i < self@.swap_chains.len() ==> #[trigger] res->Ok_0@[i] == (PresentRequest {
                    swap_chain: self@.swap_chains[i].swap_chain,
                    sync_interval: self@.swap_chains[i].sync_interval,
                    flags: 0,
                    linear_content_ignored: false,
                }),
    {
        if src != 0 || dest != 0 || dirty != 0 || wnd != 0 {
            return Err(Error::NotAvailable);
        }

        let mut requests: Vec<PresentRequest> = Vec::new();
        let mut i: usize = 0;
        assert(0u32 & 1u32 == 0u32 && 0u32 & 2u32 == 0u32) by (bit_vector);
        while i < self.swap_chains.len()
            invariant
                i <= self.swap_chains@.len(),
                requests@.len() == i,
                src == 0 && dest == 0 && dirty == 0 && wnd == 0,
                forall|j: int|
                    0 <= j < i ==> #[trigger] requests@[j] == (PresentRequest {
                        swap_chain: self@.swap_chains[j].swap_chain,
                        sync_interval: self@.swap_chains[j].sync_interval,
                        flags: 0,
                        linear_content_ignored: false,
                    }),
                0u32 & 1u32 == 0u32 && 0u32 & 2u32 == 0u32,
            decreases self.swap_chains@.len() - i,
        {
            match self.swap_chains[i].present(src, dest, wnd, dirty, 0) {
                Ok(request) => {
                    requests.push(request);
                },
                Err(e) => {
                    return Err(e);
                },
            }
            i = i + 1;
        }
        Ok(requests)
    }

    /// Copies the front buffer of a swap chain into a surface. Not
    /// implemented.
    pub fn get_front_buffer_data(&self, sc: u32, fb: &Surface) -> (res: Error)
        ensures
            res == (if sc < self@.swap_chains.len() {
                Error::NotAvailable
            } else {
                Error::InvalidCall
            }),
    {
        match self.check_swap_chain(sc) {
            Ok(sc) => sc.get_front_buffer_data(fb),
            Err(e) => e,
        }
    }

    /// Checks a request for a back buffer of a swap chain. On success the
    /// buffer of that index is to be retrieved from that swap chain.
    pub fn get_back_buffer(&self, sc: u32, bi: u32, ty: u32) -> (res: Error)
        ensures
            res == (if sc >= self@.swap_chains.len() || bi
                >= self@.swap_chains[sc as int].pp.back_buffer_count || ty
                != d3d9::D3DBACKBUFFER_TYPE_MONO {
                Error::InvalidCall
            } else {
                Error::Success
            }),
    {
        match self.check_swap_chain(sc) {
            Ok(sc) => sc.get_back_buffer(bi, ty),
            Err(e) => e,
        }
    }

    /// Gets the status of the scanline of a swap chain.
    pub fn get_raster_status(&self, sc: u32) -> (res: Error)
        ensures
            res == (if sc < self@.swap_chains.len() {
                Error::NotAvailable
            } else {
                Error::InvalidCall
            }),
    {
        match self.check_swap_chain(sc) {
            Ok(sc) => sc.get_raster_status(),
            Err(e) => e,
        }
    }

    /// Retrieves the display mode of a swap chain.
    pub fn get_display_mode(&self, sc: u32) -> (res: Result<d3d9::DisplayMode>)
        ensures
            res == (if sc < self@.swap_chains.len() {
                Ok::<d3d9::DisplayMode, Error>(
                    d3d9::DisplayMode {
                        width: self@.swap_chains[sc as int].pp.back_buffer_width,
                        height: self@.swap_chains[sc as int].pp.back_buffer_height,
                        refresh_rate: self@.swap_chains[sc as int].pp.full_screen_refresh_rate_in_hz,
                        format: self@.swap_chains[sc as int].pp.back_buffer_format,
                    },
                )
            } else {
                Err::<d3d9::DisplayMode, Error>(Error::InvalidCall)
            }),
    {
        match self.check_swap_chain(sc) {
            Ok(sc) => Ok(sc.get_display_mode()),
            Err(e) => Err(e),
        }
    }

    // -- Render target functions --

    /// Describes a new render target. Lockable render targets and shared
    /// resources are not supported.
    pub fn create_render_target(
        &self,
        width: u32,
        height: u32,
        fmt: u32,
        ms_ty: u32,
        ms_qlt: u32,
        lockable: u32,
        shared_handle: usize,
    ) -> (res: Result<Texture2dDesc>)
        ensures
            res == (if lockable != 0 || shared_handle != 0 {
                Err::<Texture2dDesc, Error>(Error::NotAvailable)
            } else {
                output_desc_of(
                    (width, height),
                    fmt,
                    crate::abi::dxgi::SampleDesc {
                        count: crate::base::msample::sample_count_of(ms_ty),
                        quality: ms_qlt,
                    },
                    d3d11::D3D11_BIND_RENDER_TARGET,
                )
            }),
    {
        if lockable != 0 {
            // Lockable render targets are not supported.
            return Err(Error::NotAvailable);
        }

        if shared_handle != 0 {
            // Shared resources are not supported.
            return Err(Error::NotAvailable);
        }

        // First we need to create a texture we will render to.
        Texture2D::new_rt((width, height), fmt, ms_ty, ms_qlt)
    }

    /// Sets a new render target on this device, or empties a slot. The
    /// first slot is never emptied, and only a surface with a render target
    /// view can be bound. Every other slot stays as it is. On success says
    /// how the outputs of the modern context are to be bound; on failure
    /// nothing changes.
    pub fn set_render_target(&mut self, i: u32, rt: Option<Surface>) -> (res: Result<OutputBinding>)
        requires
            old(self).wf(),
        ensures
            final(self).wf(),
            !DeviceView::can_set_render_target(i, rt) ==> res is Err && res->Err_0
                == Error::InvalidCall && final(self)@ == old(self)@,
            DeviceView::can_set_render_target(i, rt) ==> res is Ok && final(self)@ == (DeviceView {
                render_targets: install(old(self)@.render_targets, i as int, rt),
                ..old(self)@
            }).with_full_viewport() && final(self)@.is_bound_as(res->Ok_0),
    {
        if i >= d3d11::D3D11_SIMULTANEOUS_RENDER_TARGET_COUNT {
            return Err(Error::InvalidCall);
        }

        // The default render target is never allowed to be null.
        if i == 0 && rt.is_none() {
            return Err(Error::InvalidCall);
        }

        // Ensure this surface is indeed a render target.
        if let Some(surface) = rt {
            if surface.render_target_view().is_none() {
                return Err(Error::InvalidCall);
            }
        }

        let i = i as usize;

        // Ensure the RT vector contains at least as many entries as we need.
        while self.render_targets.len() < i + 1
            invariant
                i < MAX_RENDER_TARGETS,
                old(self)@.render_targets.len() <= MAX_RENDER_TARGETS,
                self.render_targets@.len() >= old(self)@.render_targets.len(),
                self.render_targets@.len() > old(self)@.render_targets.len()
                    ==> self.render_targets@.len() <= i + 1,
                self@ == (DeviceView { render_targets: self@.render_targets, ..old(self)@ }),
                forall|j: int|
                    0 <= j < self.render_targets@.len() ==> #[trigger] self.render_targets@[j] == (
                    if j < old(self)@.render_targets.len() {
                        old(self)@.render_targets[j]
                    } else {
                        None
                    }),
            decreases i + 1 - self.render_targets@.len(),
        {
            self.render_targets.push(None);
        }

        self.render_targets[i] = rt;
        assert(self@.render_targets =~= install(old(self)@.render_targets, i as int, rt));

        Ok(self.update_render_targets())
    }

    /// Retrieves a bound render target.
    pub fn get_render_target(&self, i: u32) -> (res: Result<Surface>)
        ensures
            res == (if i < self@.render_targets.len() && self@.render_targets[i as int] is Some {
                Ok::<Surface, Error>(self@.render_targets[i as int].unwrap())
            } else {
                Err::<Surface, Error>(Error::NotFound)
            }),
    {
        self.check_render_target(i)
    }

    // -- Depth / stencil buffer functions --

    /// Describes a new depth / stencil buffer. Shared resources are not
    /// supported; a buffer whose contents may be discarded is one whose
    /// contents are kept. The buffer is never multisampled.
    pub fn create_depth_stencil_surface(
        &self,
        width: u32,
        height: u32,
        fmt: u32,
        _ms_ty: u32,
        _ms_qlt: u32,
        _discard: u32,
        shared_handle: usize,
    ) -> (res: Result<Texture2dDesc>)
        ensures
            res == (if shared_handle != 0 {
                Err::<Texture2dDesc, Error>(Error::NotAvailable)
            } else {
                output_desc_of(
                    (width, height),
                    fmt,
                    crate::abi::dxgi::SampleDesc { count: 1, quality: 0 },
                    d3d11::D3D11_BIND_DEPTH_STENCIL,
                )
            }),
    {
        if shared_handle != 0 {
            // Shared resources are not supported.
            return Err(Error::NotAvailable);
        }

        Texture2D::new_ds((width, height), fmt)
    }

    /// Sets the current depth / stencil buffer, or unbinds it. Only a
    /// surface with a depth / stencil view can be bound. On success says
    /// how the outputs of the modern context are to be bound; on failure
    /// nothing changes.
    pub fn set_depth_stencil_surface(&mut self, ds: Option<Surface>) -> (res: Result<OutputBinding>)
        requires
            old(self).wf(),
        ensures
            final(self).wf(),
            !DeviceView::can_set_depth_stencil(ds) ==> res is Err && res->Err_0 == Error::InvalidCall
                && final(self)@ == old(self)@,
            DeviceView::can_set_depth_stencil(ds) ==> res is Ok && final(self)@ == (DeviceView {
                depth_stencil: ds,
                ..old(self)@
            }).with_full_viewport() && final(self)@.is_bound_as(res->Ok_0),
    {
        if let Some(surface) = ds {
            if surface.depth_stencil_view().is_none() {
                return Err(Error::InvalidCall);
            }
        }

        self.depth_stencil = ds;

        Ok(self.update_render_targets())
    }

    /// Retrieves the bound depth / stencil buffer, if there is one.
    pub fn get_depth_stencil_surface(&self) -> (res: Option<Surface>)
        ensures
            res == self@.depth_stencil,
    {
        self.depth_stencil
    }

    /// Describes an off-screen surface. Shared resources are not supported.
    /// Whatever pool is asked for, the image is one that the processor can
    /// read, since that is what such a surface is for.
    pub fn create_offscreen_plain_surface(
        &self,
        width: u32,
        height: u32,
        fmt: u32,
        _pool: MemoryPool,
        shared_handle: usize,
    ) -> (res: Result<Texture2dDesc>)
        ensures
            res == (if shared_handle != 0 {
                Err::<Texture2dDesc, Error>(Error::NotAvailable)
            } else {
                texture_desc_of(
                    (width, height),
                    1,
                    1,
                    UsageFlags { bits: 0 },
                    fmt,
                    MemoryPool::SystemMem,
                )
            }),
    {
        if shared_handle != 0 {
            // Shared resources are not supported.
            return Err(Error::NotAvailable);
        }

        Texture2D::new((width, height), 1, UsageFlags::empty(), fmt, MemoryPool::SystemMem)
    }

    /// Wraps the image of an off-screen surface. The surface remembers the
    /// pool that was asked for.
    pub fn offscreen_plain_surface(&self, texture: Texture2D, pool: MemoryPool) -> (res: Surface)
        ensures
            res == (Surface {
                resource: Resource {
                    device: self@.id,
                    usage: UsageFlags { bits: 0 },
                    pool,
                    ty: ResourceType::Surface,
                    priority: 0,
                },
                texture,
                subresource: 0,
                data: SurfaceData::Plain,
            }),
    {
        Surface::new(self.id, texture, 0, UsageFlags::empty(), pool, SurfaceData::Plain)
    }

    // -- Surface manipulation functions --

    /// Says how a region of a surface is to be copied to another surface.
    /// The source must be in system memory and the destination in the
    /// default pool.
    pub fn update_surface(&self, src: &Surface, sr: Option<Rect>, dest: &Surface, dp: &Point) -> (res:
        Result<CopyRequest>)
        ensures
            res == (if src.resource.pool != MemoryPool::SystemMem || dest.resource.pool
                != MemoryPool::Default {
                Err::<CopyRequest, Error>(Error::InvalidCall)
            } else {
                Ok::<CopyRequest, Error>(
                    CopyRequest {
                        dest_resource: dest.texture.texture,
                        dest_subresource: dest.subresource,
                        dest_x: unsigned_of(dp.x),
                        dest_y: unsigned_of(dp.y),
                        dest_z: 0,
                        src_resource: src.texture.texture,
                        src_subresource: src.subresource,
                        src_box: match sr {
                            Some(r) => Some(box_of(r)),
                            None => None,
                        },
                    },
                )
            }),
    {
        if !matches!(src.resource.pool(), MemoryPool::SystemMem) || !matches!(
            dest.resource.pool(),
            MemoryPool::Default
        ) {
            return Err(Error::InvalidCall);
        }

        let (src_res, src_subres) = src.subresource();
        let (dest_res, dest_subres) = dest.subresource();

        let src_box = match sr {
            Some(sr) => Some(
                ResourceBox {
                    left: unsigned(sr.left),
                    top: unsigned(sr.top),
                    front: 0,
                    right: unsigned(sr.right),
                    bottom: unsigned(sr.bottom),
                    back: 1,
                },
            ),
            None => None,
        };

        Ok(
            CopyRequest {
                dest_resource: dest_res,
                dest_subresource: dest_subres,
                dest_x: unsigned(dp.x),
                dest_y: unsigned(dp.y),
                dest_z: 0,
                src_resource: src_res,
                src_subresource: src_subres,
                src_box,
            },
        )
    }

    // -- Texture creation functions --

    /// Describes a new texture for the given parameters. Shared resources
    /// are not supported. Textures are never multisampled.
    pub fn create_texture(
        &self,
        width: u32,
        height: u32,
        levels: u32,
        usage: UsageFlags,
        fmt: u32,
        pool: MemoryPool,
        shared_handle: usize,
    ) -> (res: Result<Texture2dDesc>)
        ensures
            res == (if shared_handle != 0 {
                Err::<Texture2dDesc, Error>(Error::NotAvailable)
            } else {
                texture_desc_of((width, height), levels, 1, usage, fmt, pool)
            }),
    {
        if shared_handle != 0 {
            // Shared resources are not supported.
            return Err(Error::NotAvailable);
        }

        Texture2D::new((width, height), levels, usage, fmt, pool)
    }

    /// Wraps the image of a texture that was created.
    pub fn texture(&self, texture: Texture2D, levels: u32, usage: UsageFlags, pool: MemoryPool) -> (res:
        Texture)
        ensures
            res.texture == texture,
            res.base.levels == levels,
            res.base.resource == (Resource {
                device: self@.id,
                usage,
                pool,
                ty: ResourceType::Texture,
                priority: 0,
            }),
    {
        Texture::new(self.id, pool, texture, levels, usage)
    }

    // -- State block functions --

    /// Creates a new state block which can capture commands. Not
    /// implemented.
    pub fn create_state_block(&mut self, ty: u32) -> (res: Result<StateBlock>)
        ensures
            res == Err::<StateBlock, Error>(Error::NotAvailable),
            final(self)@ == old(self)@,
    {
        StateBlock::new(self.id, ty)
    }

    /// Validates the current state of the device: gives the number of
    /// passes in which it can be rendered.
    pub fn validate_device(&self) -> (passes: u32)
        ensures
            passes == 1,
    {
        // We do not emulate anything using multiple passes.
        1
    }

    // -- Pipeline state functions --

    /// Sets the render state.
    pub fn set_render_state(&mut self, state: u32, value: u32) -> (res: Error)
        ensures
            res == Error::Success,
            final(self)@ == (DeviceView {
                state: old(self)@.state.with_render_state(state, value),
                ..old(self)@
            }),
    {
        self.istate.set_render_state(state, value);
        Error::Success
    }

    /// Retrieves the value of the current render state.
    pub fn get_render_state(&self, state: u32) -> (res: u32)
        ensures
            res == self@.state.render_state(state),
    {
        self.istate.get_render_state(state)
    }

    /// Sets the current vertex declaration.
    pub fn set_vertex_declaration(&mut self, decl: usize) -> (res: Error)
        ensures
            res == (if decl == 0 {
                Error::InvalidCall
            } else {
                Error::Success
            }),
            decl == 0 ==> final(self)@ == old(self)@,
            decl != 0 ==> final(self)@.state.vertex.vertex_decl == decl && final(self)@ == (
            DeviceView { state: final(self)@.state, ..old(self)@ }) && final(self)@.state == (
            DeviceStateView { vertex: final(self)@.state.vertex, ..old(self)@.state }),
    {
        if decl == 0 {
            return Error::InvalidCall;
        }
        self.istate.set_vertex_declaration(decl);
        Error::Success
    }

    /// Gets the current vertex declaration, or zero.
    pub fn get_vertex_declaration(&self) -> (res: usize)
        ensures
            res == self@.state.vertex.vertex_decl,
    {
        self.istate.get_vertex_declaration()
    }

    /// Describes a new vertex buffer. Shared resources are not supported.
    pub fn create_vertex_buffer(
        &self,
        len: u32,
        usage: UsageFlags,
        _fvf: u32,
        pool: MemoryPool,
        shared_handle: usize,
    ) -> (res: Result<BufferDesc>)
        ensures
            res == (if shared_handle != 0 {
                Err::<BufferDesc, Error>(Error::NotAvailable)
            } else {
                buffer_desc_of(len, usage, pool, d3d11::D3D11_BIND_VERTEX_BUFFER)
            }),
    {
        if shared_handle != 0 {
            // Shared resources are not supported.
            return Err(Error::NotAvailable);
        }

        Buffer::new(len, usage, pool, d3d11::D3D11_BIND_VERTEX_BUFFER)
    }

    /// Wraps a vertex buffer that was created.
    pub fn vertex_buffer(&self, buffer: Buffer, usage: UsageFlags, fvf: u32, pool: MemoryPool) -> (res:
        VertexBuffer)
        ensures
            res == (VertexBuffer {
                resource: Resource {
                    device: self@.id,
                    usage,
                    pool,
                    ty: ResourceType::VertexBuffer,
                    priority: 0,
                },
                fvf,
                buffer,
            }),
    {
        VertexBuffer::new(self.id, pool, fvf, buffer, usage)
    }

    /// Describes a new index buffer. Shared resources are not supported.
    pub fn create_index_buffer(
        &self,
        len: u32,
        usage: UsageFlags,
        _fmt: u32,
        pool: MemoryPool,
        shared_handle: usize,
    ) -> (res: Result<BufferDesc>)
        ensures
            res == (if shared_handle != 0 {
                Err::<BufferDesc, Error>(Error::NotAvailable)
            } else {
                buffer_desc_of(len, usage, pool, d3d11::D3D11_BIND_INDEX_BUFFER)
            }),
    {
        if shared_handle != 0 {
            // Shared resources are not supported.
            return Err(Error::NotAvailable);
        }

        Buffer::new(len, usage, pool, d3d11::D3D11_BIND_INDEX_BUFFER)
    }

    /// Wraps an index buffer that was created.
    pub fn index_buffer(&self, buffer: Buffer, usage: UsageFlags, fmt: u32, pool: MemoryPool) -> (res:
        IndexBuffer)
        ensures
            res == (IndexBuffer {
                resource: Resource {
                    device: self@.id,
                    usage,
                    pool,
                    ty: ResourceType::IndexBuffer,
                    priority: 0,
                },
                fmt,
                buffer,
            }),
    {
        IndexBuffer::new(self.id, fmt, pool, buffer, usage)
    }

    /// Sets the state of a texture sampler.
    pub fn set_sampler_state(&mut self, sampler: u32, ty: u32, value: u32) -> (res: Error)
        ensures
            res == Error::Success,
            final(self)@ == (DeviceView {
                state: old(self)@.state.with_sampler_state(sampler, ty, value),
                ..old(self)@
            }),
    {
        self.istate.set_sampler_state(sampler, ty, value);

        Error::Success
    }

    /// Gets the state of a texture sampler.
    pub fn get_sampler_state(&self, sampler: u32, ty: u32) -> (res: u32)
        ensures
            res == self@.state.sampler_state(sampler, ty),
    {
        self.istate.get_sampler_state(sampler, ty)
    }

    /// Set a state for the texture bound to a certain stage.
    pub fn set_texture_stage_state(&mut self, stage: u32, ty: u32, value: u32) -> (res: Error)
        ensures
            res == Error::Success,
            final(self)@ == (DeviceView {
                state: old(self)@.state.with_texture_stage_state(stage, ty, value),
                ..old(self)@
            }),
    {
        self.istate.set_texture_stage_state(stage, ty, value);

        Error::Success
    }

    /// Retrieves the state of a certain texture stage.
    pub fn get_texture_stage_state(&self, stage: u32, ty: u32) -> (res: u32)
        ensures
            res == self@.state.texture_stage_state(stage, ty),
    {
        self.istate.get_texture_stage_state(stage, ty)
    }

    // -- Output Merger state --

    /// Sets a device's viewport.
    pub fn set_viewport(&mut self, vp: &Viewport) -> (res: Error)
        ensures
            res == Error::Success,
            final(self)@ == (DeviceView {
                state: DeviceStateView { viewport: *vp, ..old(self)@.state },
                ..old(self)@
            }),
    {
        self.istate.set_viewport(vp);
        Error::Success
    }

    /// Retrieves the currently set viewport.
    pub fn get_viewport(&self) -> (res: Viewport)
        ensures
            res == self@.state.viewport,
    {
        self.istate.get_viewport()
    }
}

/// The surface of a render target of the device named `id`.
pub open spec fn render_target_surface(id: usize, texture: Texture2D, view: usize) -> Surface {
    Surface {
        resource: Resource {
            device: id,
            usage: UsageFlags { bits: UsageFlags::RENDER_TARGET },
            pool: MemoryPool::Default,
            ty: ResourceType::Surface,
            priority: 0,
        },
        texture,
        subresource: 0,
        data: SurfaceData::RenderTarget(view),
    }
}

/// The surface of a depth / stencil buffer of the device named `id`.
pub open spec fn depth_stencil_surface(id: usize, texture: Texture2D, view: usize) -> Surface {
    Surface {
        resource: Resource {
            device: id,
            usage: UsageFlags { bits: UsageFlags::DEPTH_STENCIL },
            pool: MemoryPool::Default,
            ty: ResourceType::Surface,
            priority: 0,
        },
        texture,
        subresource: 0,
        data: SurfaceData::DepthStencil(view),
    }
}

/// A device that is constructed over a window has everything at the size of
/// the back buffer. The back buffer has the size that was asked for, or
/// else that of the client rectangle of the window; the depth / stencil
/// buffer that the device creates for itself is described at that size; and
/// if the image that the platform hands out as back buffer has the size that
/// the swap chain was described with, the render target that is made of it
/// has a render target view and the viewport covers exactly that size, with
/// depths from zero to one.
pub proof fn device_over_a_window(
    pp: PresentParameters,
    window: usize,
    client: Rect,
    id: usize,
    back_buffer: Texture2D,
    view: usize,
)
    requires
        can_describe(pp),
        back_buffer.desc.width == swap_chain_desc_of(pp, window, client).buffer_desc.width,
        back_buffer.desc.height == swap_chain_desc_of(pp, window, client).buffer_desc.height,
    ensures
        ({
            let size = crate::dev::swapchain::resolved_size(pp, client);
            let resolved = resolved_parameters(pp, client);
            let rt = render_target_surface(id, back_buffer, view);
            &&& swap_chain_desc_of(pp, window, client).buffer_desc.width == size.0
            &&& swap_chain_desc_of(pp, window, client).buffer_desc.height == size.1
            &&& (resolved.back_buffer_width, resolved.back_buffer_height) == size
            &&& pp.back_buffer_format == d3d9::D3DFMT_UNKNOWN ==> resolved.back_buffer_format
                == d3d9::D3DFMT_A8R8G8B8 && swap_chain_desc_of(
                pp,
                window,
                client,
            ).buffer_desc.format == crate::abi::dxgi::DXGI_FORMAT_B8G8R8A8_UNORM
            &&& rt.data is RenderTarget
            &&& rt.described_usage() == d3d9::D3DUSAGE_RENDERTARGET
            &&& DeviceView::can_set_render_target(0, Some(rt))
            &&& full_viewport(rt) == (Viewport {
                x: 0,
                y: 0,
                width: size.0,
                height: size.1,
                min_z: FLOAT_ZERO,
                max_z: FLOAT_ONE,
            })
            &&& pp.enable_auto_depth_stencil == 0 ==> auto_depth_stencil_of(resolved) is None
            &&& pp.enable_auto_depth_stencil != 0 ==> auto_depth_stencil_of(resolved) is Some
            &&& pp.enable_auto_depth_stencil != 0 && auto_depth_stencil_of(resolved)->Some_0 is Ok
                ==> ({
                let desc = auto_depth_stencil_of(resolved)->Some_0->Ok_0;
                &&& (desc.width, desc.height) == size
                &&& desc.bind_flags == d3d11::D3D11_BIND_DEPTH_STENCIL
                &&& desc.sample_desc.count == 1
                &&& forall|texture: usize, ds_view: usize|
                    DeviceView::can_set_depth_stencil(
                        Some(
                            #[trigger] depth_stencil_surface(
                                id,
                                Texture2D { texture, desc },
                                ds_view,
                            ),
                        ),
                    )
            })
            &&& pp.enable_auto_depth_stencil != 0 ==> (auto_depth_stencil_of(resolved)->Some_0 is Ok
                <==> crate::base::fmt::dxgi_format_of(pp.auto_depth_stencil_format) is Some)
        }),
{
}

/// The back buffer of a swap chain whose size is left open has the width
/// and the height of the client rectangle of the window.
pub proof fn auto_sized_back_buffer(pp: PresentParameters, client: Rect)
    requires
        crate::dev::swapchain::is_auto_sized(pp),
        client.left <= client.right,
        client.top <= client.bottom,
    ensures
        crate::dev::swapchain::resolved_size(pp, client) == (
            (client.right - client.left) as u32,
            (client.bottom - client.top) as u32,
        ),
        client.right - client.left <= u32::MAX,
        client.bottom - client.top <= u32::MAX,
{
}

/// The first render target slot cannot be emptied: the request is refused
/// as an invalid call, whatever is bound.
pub proof fn first_render_target_is_never_unbound()
    ensures
        !DeviceView::can_set_render_target(0, None),
{
}

/// What always holds of a device does not depend on its render state.
pub proof fn state_changes_preserve_the_invariant(dev: DeviceView, state: DeviceStateView)
    requires
        dev.wf(),
    ensures
        (DeviceView { state, ..dev }).wf(),
{
}

/// Whatever is bound as depth / stencil buffer that can be bound, the device
/// stays as it must be.
pub proof fn depth_stencil_preserves_the_invariant(dev: DeviceView, ds: Option<Surface>)
    requires
        dev.wf(),
        DeviceView::can_set_depth_stencil(ds),
    ensures
        (DeviceView { depth_stencil: ds, ..dev }).wf(),
        (DeviceView { depth_stencil: ds, ..dev }).with_full_viewport().wf(),
{
}

/// Whatever is put into a slot that can be put there, the device stays as
/// it must be: the first slot is still bound, and every bound surface has
/// its view.
pub proof fn binding_preserves_the_invariant(dev: DeviceView, i: u32, rt: Option<Surface>)
    requires
        dev.wf(),
        DeviceView::can_set_render_target(i, rt),
    ensures
        (DeviceView { render_targets: install(dev.render_targets, i as int, rt), ..dev }).wf(),
        (DeviceView {
            render_targets: install(dev.render_targets, i as int, rt),
            ..dev
        }).with_full_viewport().wf(),
        install(dev.render_targets, i as int, rt).len() == (if dev.render_targets.len() > i + 1 {
            dev.render_targets.len() as int
        } else {
            i + 1
        }),
        install(dev.render_targets, i as int, rt).len() >= dev.render_targets.len(),
        install(dev.render_targets, i as int, rt)[i as int] == rt,
        forall|j: int|
            0 <= j < dev.render_targets.len() && j != i ==> #[trigger] install(
                dev.render_targets,
                i as int,
                rt,
            )[j] == dev.render_targets[j],
        forall|j: int|
            dev.render_targets.len() <= j < i ==> #[trigger] install(
                dev.render_targets,
                i as int,
                rt,
            )[j] is None,
{
}

/// Putting a surface into a slot and then another one into a second slot
/// leaves both bound: no binding undoes another.
pub proof fn bindings_do_not_undo_each_other(
    dev: DeviceView,
    i: u32,
    first: Surface,
    j: u32,
    second: Option<Surface>,
)
    requires
        dev.wf(),
        DeviceView::can_set_render_target(i, Some(first)),
        DeviceView::can_set_render_target(j, second),
        i != j,
    ensures
        install(install(dev.render_targets, i as int, Some(first)), j as int, second)[i as int]
            == Some(first),
        install(install(dev.render_targets, i as int, Some(first)), j as int, second)[j as int]
            == second,
{
}

} // verus!
