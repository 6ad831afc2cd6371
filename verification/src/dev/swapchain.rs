//! Swap chains: queues of buffers on which the app can draw.
//!
//! The swap chain handles the presentation of the buffers,
//! i.e. the way they are sent to the screen.

use vstd::prelude::*;
use crate::abi::d3d11::Texture2dDesc;
use crate::abi::d3d9;
use crate::abi::d3d9::{DisplayMode, PresentParameters, Rect};
use crate::abi::dxgi;
use crate::abi::dxgi::{ModeDesc, Rational, SampleDesc, SwapChainDesc};
use crate::base::check_hresult;
use crate::base::enums::{MemoryPool, ResourceType, UsageFlags};
use crate::base::fmt::{checked_d3d_display_format_to_dxgi, display_format_of};
use crate::base::msample::{d3d9_to_dxgi_samples, sample_count_of};
use crate::d3d11::Texture2D;
use crate::dev::resource::Resource;
use crate::dev::surface::{Surface, SurfaceData};
use crate::error::{Error, Result};

verus! {

/// How the buffers of a swap chain are used: as back buffers that are
/// rendered to.
pub const BACK_BUFFER_USAGE: u32 = 96;

/// Flag of a present that must not wait.
pub const PRESENT_DO_NOT_WAIT: u32 = 1;

/// Flag of a present whose content is linear.
pub const PRESENT_LINEAR_CONTENT: u32 = 2;

/// The largest number of back buffers of a swap chain.
pub const MAX_BACK_BUFFERS: u32 = 3;

/// The largest number of vertical blanks to wait for before presenting.
pub const MAX_SYNC_INTERVAL: u32 = 4;

/// What was asked for and could not be had when a swap chain was described.
/// Each is worth a line in the log; none makes the description fail.
#[derive(Debug, Copy, Clone, PartialEq, Eq, Structural)]
pub struct SwapChainNotes {
    /// Multisampling was asked for with a swap effect other than discard,
    /// with which alone it is supported, and was switched off.
    pub multisampling_disabled: bool,
    /// Several back buffers were asked for with the copy swap effect,
    /// which has one.
    pub back_buffers_limited: bool,
    /// The swap effect is neither discard nor copy; discard takes its place.
    pub swap_effect_replaced: bool,
    /// Presentation flags were given and are ignored.
    pub flags_ignored: bool,
}

/// A present that the platform is asked for.
#[derive(Debug, Copy, Clone, PartialEq, Eq, Structural)]
pub struct PresentRequest {
    /// The swap chain to present.
    pub swap_chain: usize,
    /// How many vertical blanks to wait for: zero for none.
    pub sync_interval: u32,
    /// Flags of the present.
    pub flags: u32,
    /// Linear content was asked for; gamma correction is not supported and
    /// the request is ignored.
    pub linear_content_ignored: bool,
}

/// The width or height of a window whose client rectangle goes from `from`
/// to `to`, in the 32 bits in which the platform computes it.
pub open spec fn extent_of(from: i32, to: i32) -> u32 {
    ((to - from) % 0x1_0000_0000) as u32
}

/// Whether the size of the back buffer is left to the library.
pub open spec fn is_auto_sized(pp: PresentParameters) -> bool {
    pp.back_buffer_width == 0 || pp.back_buffer_height == 0
}

/// The size of the back buffer: the one that was asked for, or else that of
/// the client rectangle of the window.
pub open spec fn resolved_size(pp: PresentParameters, client: Rect) -> (u32, u32) {
    if is_auto_sized(pp) {
        (extent_of(client.left, client.right), extent_of(client.top, client.bottom))
    } else {
        (pp.back_buffer_width, pp.back_buffer_height)
    }
}

/// The format of the back buffer: the one that was asked for, or else the
/// one that displays use.
pub open spec fn resolved_format(pp: PresentParameters) -> u32 {
    if pp.back_buffer_format == d3d9::D3DFMT_UNKNOWN {
        d3d9::D3DFMT_A8R8G8B8
    } else {
        pp.back_buffer_format
    }
}

/// A number held between two bounds.
pub open spec fn clamp(value: u32, low: u32, high: u32) -> u32 {
    if value < low {
        low
    } else if value > high {
        high
    } else {
        value
    }
}

/// The number of samples per pixel of the back buffer: what was asked for,
/// held between 1 and 16, with the discard swap effect, and one with every
/// other.
pub open spec fn resolved_sample_count(pp: PresentParameters) -> u32 {
    if pp.swap_effect != d3d9::D3DSWAPEFFECT_DISCARD {
        1
    } else {
        clamp(pp.multi_sample_type, 1, 16)
    }
}

/// The number of back buffers that the presentation parameters report once
/// the swap chain exists: one where the swap effect copies.
pub open spec fn reported_back_buffer_count(pp: PresentParameters) -> u32 {
    if pp.swap_effect == d3d9::D3DSWAPEFFECT_COPY {
        1
    } else {
        pp.back_buffer_count
    }
}

/// The presentation parameters as they are once the swap chain is
/// described: with the size and the format filled in.
pub open spec fn resolved_parameters(pp: PresentParameters, client: Rect) -> PresentParameters {
    PresentParameters {
        back_buffer_width: resolved_size(pp, client).0,
        back_buffer_height: resolved_size(pp, client).1,
        back_buffer_format: resolved_format(pp),
        back_buffer_count: reported_back_buffer_count(pp),
        ..pp
    }
}

/// Whether a swap chain can be described for the presentation parameters.
/// A swap chain that covers the screen needs its size, and the format must
/// be one that displays have.
pub open spec fn can_describe(pp: PresentParameters) -> bool {
    &&& is_auto_sized(pp) ==> pp.windowed != 0
    &&& display_format_of(resolved_format(pp)) is Some
}

/// The description of the swap chain for the presentation parameters.
pub open spec fn swap_chain_desc_of(pp: PresentParameters, window: usize, client: Rect)
    -> SwapChainDesc
    recommends
        can_describe(pp),
{
    SwapChainDesc {
        buffer_desc: ModeDesc {
            width: resolved_size(pp, client).0,
            height: resolved_size(pp, client).1,
            refresh_rate: Rational {
                numerator: pp.full_screen_refresh_rate_in_hz,
                denominator: 1,
            },
            format: display_format_of(resolved_format(pp)).unwrap(),
            scanline_ordering: dxgi::DXGI_MODE_SCANLINE_ORDER_UNSPECIFIED,
            scaling: dxgi::DXGI_MODE_SCALING_UNSPECIFIED,
        },
        sample_desc: SampleDesc {
            count: resolved_sample_count(pp),
            quality: pp.multi_sample_quality,
        },
        buffer_usage: BACK_BUFFER_USAGE,
        buffer_count: clamp(reported_back_buffer_count(pp), 1, MAX_BACK_BUFFERS),
        output_window: window,
        windowed: pp.windowed,
        swap_effect: dxgi::DXGI_SWAP_EFFECT_DISCARD,
        flags: 0,
    }
}

/// What could not be had of the presentation parameters.
pub open spec fn swap_chain_notes_of(pp: PresentParameters) -> SwapChainNotes {
    SwapChainNotes {
        multisampling_disabled: pp.swap_effect != d3d9::D3DSWAPEFFECT_DISCARD
            && pp.multi_sample_type > 1,
        back_buffers_limited: pp.swap_effect == d3d9::D3DSWAPEFFECT_COPY && pp.back_buffer_count
            > 1,
        swap_effect_replaced: pp.swap_effect != d3d9::D3DSWAPEFFECT_DISCARD && pp.swap_effect
            != d3d9::D3DSWAPEFFECT_COPY,
        flags_ignored: pp.flags != 0,
    }
}

/// The flags of the present that stands for a present of the legacy
/// interface.
pub open spec fn present_flags_of(flags: u32) -> u32 {
    if flags & PRESENT_DO_NOT_WAIT != 0 {
        dxgi::DXGI_PRESENT_DO_NOT_WAIT
    } else {
        0
    }
}

/// What the status of a present means to the caller. A refusal of a present
/// that would have had to wait is told apart from every other failure.
pub open spec fn present_outcome(result: i32) -> Error {
    if result == 0 {
        Error::Success
    } else if result == dxgi::DXGI_ERROR_WAS_STILL_DRAWING {
        Error::WasStillDrawing
    } else {
        Error::DriverInternalError
    }
}

/// The width or height of a rectangle that goes from `from` to `to`.
pub fn extent(from: i32, to: i32) -> (res: u32)
    ensures
        res == extent_of(from, to),
{
    let distance: i64 = to as i64 - from as i64;
    if distance < 0 {
        (distance + 0x1_0000_0000) as u32
    } else {
        distance as u32
    }
}

fn clamped(value: u32, low: u32, high: u32) -> (res: u32)
    ensures
        res == clamp(value, low, high),
{
    if value < low {
        low
    } else if value > high {
        high
    } else {
        value
    }
}

/// Represents a swap chain, which is a queue of buffers
/// on which the app can draw.
#[derive(Debug, Copy, Clone, PartialEq, Eq, Structural)]
pub struct SwapChain {
    /// Parent device of this interface.
    pub parent: usize,
    /// The swap chain of the modern interface.
    pub swap_chain: usize,
    /// Store these for retrieving them later.
    pub pp: PresentParameters,
    /// Determines how many vertical blanks to wait before presenting:
    /// 0 -> no wait,
    /// 1 through 4 -> wait, and present at the rate of the monitor divided
    /// by this number.
    pub sync_interval: u32,
}

impl SwapChain {
    /// Describes the swap chain that presents into a window, for the given
    /// presentation parameters, and fills in those that were left open:
    /// the size of the back buffer, from the client rectangle of the
    /// window, and its format. Where no swap chain can be described the
    /// parameters stay as they are.
    pub fn describe(pp: &mut PresentParameters, window: usize, client: Rect) -> (res: Result<
        (SwapChainDesc, SwapChainNotes),
    >)
        ensures
            can_describe(*old(pp)) ==> res == Ok::<(SwapChainDesc, SwapChainNotes), Error>(
                (swap_chain_desc_of(*old(pp), window, client), swap_chain_notes_of(*old(pp))),
            ) && *final(pp) == resolved_parameters(*old(pp), client),
            !can_describe(*old(pp)) ==> res == Err::<(SwapChainDesc, SwapChainNotes), Error>(
                Error::InvalidCall,
            ) && *final(pp) == *old(pp),
    {
        // Determine the dimensions of the back buffer.
        let (width, height) = if pp.back_buffer_width == 0 || pp.back_buffer_height == 0 {
            // In full-screen modes, we need to be told the exact resolution.
            if pp.windowed == 0 {
                return Err(Error::InvalidCall);
            }
            // If either of these was 0, the app requested us to use the window's size.
            (extent(client.left, client.right), extent(client.top, client.bottom))
        } else {
            (pp.back_buffer_width, pp.back_buffer_height)
        };

        // Determine the back buffer format.
        // If it's unknown, use the display's one.
        let fmt = if pp.back_buffer_format == d3d9::D3DFMT_UNKNOWN {
            d3d9::D3DFMT_A8R8G8B8
        } else {
            pp.back_buffer_format
        };

        let format = match checked_d3d_display_format_to_dxgi(fmt) {
            Some(format) => format,
            None => {
                return Err(Error::InvalidCall);
            },
        };

        let buffer_desc = ModeDesc {
            width,
            height,
            refresh_rate: Rational { numerator: pp.full_screen_refresh_rate_in_hz, denominator: 1 },
            format,
            scanline_ordering: dxgi::DXGI_MODE_SCANLINE_ORDER_UNSPECIFIED,
            scaling: dxgi::DXGI_MODE_SCALING_UNSPECIFIED,
        };

        let discards = pp.swap_effect == d3d9::D3DSWAPEFFECT_DISCARD;
        let copies = pp.swap_effect == d3d9::D3DSWAPEFFECT_COPY;

        let count = if !discards {
            // Multisampling is only supported with the discard swap effect.
            1
        } else {
            // Clamp between 1 and 16.
            clamped(pp.multi_sample_type, 1, 16)
        };
        assert(sample_count_of(count) == count);
        let sample_desc = d3d9_to_dxgi_samples(count, pp.multi_sample_quality);

        let reported_count = if copies {
            1
        } else {
            pp.back_buffer_count
        };

        // We have to clamp this to be between 1 and 3.
        let buffer_count = clamped(reported_count, 1, MAX_BACK_BUFFERS);

        let notes = SwapChainNotes {
            multisampling_disabled: !discards && pp.multi_sample_type > 1,
            back_buffers_limited: copies && pp.back_buffer_count > 1,
            swap_effect_replaced: !discards && !copies,
            flags_ignored: pp.flags != 0,
        };

        let desc = SwapChainDesc {
            buffer_desc,
            sample_desc,
            buffer_usage: BACK_BUFFER_USAGE,
            buffer_count,
            output_window: window,
            windowed: pp.windowed,
            swap_effect: dxgi::DXGI_SWAP_EFFECT_DISCARD,
            // We don't need any special flags.
            flags: 0,
        };

        // We have to update these elements of the structure.
        pp.back_buffer_width = width;
        pp.back_buffer_height = height;
        pp.back_buffer_format = fmt;
        pp.back_buffer_count = reported_count;

        Ok((desc, notes))
    }

    /// Takes what came of the creation of the swap chain that was described
    /// for the presentation parameters.
    pub fn new(parent: usize, pp: PresentParameters, result: i32, swap_chain: usize) -> (res:
        Result<Self>)
        ensures
            res == (if result == 0 {
                Ok::<SwapChain, Error>(
                    SwapChain {
                        parent,
                        swap_chain,
                        pp,
                        sync_interval: clamp(pp.presentation_interval, 0, MAX_SYNC_INTERVAL),
                    },
                )
            } else {
                Err::<SwapChain, Error>(Error::DriverInternalError)
            }),
    {
        match check_hresult(result) {
            Error::Success => {},
            e => {
                return Err(e);
            },
        }

        // Clamp this to 4.
        let sync_interval = clamped(pp.presentation_interval, 0, MAX_SYNC_INTERVAL);

        Ok(Self { parent, swap_chain, pp, sync_interval })
    }

    /// Takes what came of the retrieval of a buffer of this swap chain.
    pub fn buffer(&self, result: i32, texture: usize, desc: Texture2dDesc) -> (res: Result<Texture2D>)
        ensures
            res == (if result == 0 {
                Ok::<Texture2D, Error>(Texture2D { texture, desc })
            } else {
                Err::<Texture2D, Error>(Error::DriverInternalError)
            }),
    {
        match check_hresult(result) {
            Error::Success => Ok(Texture2D::from(texture, desc)),
            e => Err(e),
        }
    }

    /// Says how the back buffer is to be presented to the screen. Only the
    /// whole surface can be presented, and only to the window of the swap
    /// chain.
    pub fn present(&self, src: usize, dest: usize, wnd: usize, dirty: usize, flags: u32) -> (res:
        Result<PresentRequest>)
        ensures
            res == (if src != 0 || dest != 0 || dirty != 0 || wnd != 0 {
                Err::<PresentRequest, Error>(Error::NotAvailable)
            } else {
                Ok::<PresentRequest, Error>(
                    PresentRequest {
                        swap_chain: self.swap_chain,
                        sync_interval: self.sync_interval,
                        flags: present_flags_of(flags),
                        linear_content_ignored: flags & PRESENT_LINEAR_CONTENT != 0,
                    },
                )
            }),
    {
        if src != 0 || dest != 0 || dirty != 0 {
            // Partial present is not supported.
            return Err(Error::NotAvailable);
        }

        if wnd != 0 {
            // Presenting to a different window is not supported.
            return Err(Error::NotAvailable);
        }

        let fl = if flags & PRESENT_DO_NOT_WAIT != 0 {
            dxgi::DXGI_PRESENT_DO_NOT_WAIT
        } else {
            0
        };

        Ok(
            PresentRequest {
                swap_chain: self.swap_chain,
                sync_interval: self.sync_interval,
                flags: fl,
                linear_content_ignored: flags & PRESENT_LINEAR_CONTENT != 0,
            },
        )
    }

    /// Takes what came of a present.
    pub fn presented(result: i32) -> (res: Error)
        ensures
            res == present_outcome(result),
    {
        if result == 0 {
            Error::Success
        } else if result == dxgi::DXGI_ERROR_WAS_STILL_DRAWING {
            Error::WasStillDrawing
        } else {
            Error::DriverInternalError
        }
    }

    /// Copies data from the front buffer into a surface. Not implemented.
    pub fn get_front_buffer_data(&self, _fb: &Surface) -> (res: Error)
        ensures
            res == Error::NotAvailable,
    {
        Error::NotAvailable
    }

    /// Checks a request for a back buffer. On success the buffer of that
    /// index is to be retrieved.
    pub fn get_back_buffer(&self, idx: u32, ty: u32) -> (res: Error)
        ensures
            res == (if idx >= self.pp.back_buffer_count || ty != d3d9::D3DBACKBUFFER_TYPE_MONO {
                Error::InvalidCall
            } else {
                Error::Success
            }),
    {
        // Buffer indices start from 0.
        if idx >= self.pp.back_buffer_count {
            return Error::InvalidCall;
        }

        // The docs specify that mono is the only valid type.
        if ty != d3d9::D3DBACKBUFFER_TYPE_MONO {
            return Error::InvalidCall;
        }

        Error::Success
    }

    /// The surface of a back buffer that was retrieved.
    pub fn back_buffer_surface(&self, buffer: Texture2D) -> (res: Surface)
        ensures
            res == (Surface {
                resource: Resource {
                    device: self.parent,
                    usage: UsageFlags { bits: 0 },
                    pool: MemoryPool::Default,
                    ty: ResourceType::Surface,
                    priority: 0,
                },
                texture: buffer,
                subresource: 0,
                data: SurfaceData::Plain,
            }),
    {
        Surface::new(
            self.parent,
            buffer,
            0,
            UsageFlags::empty(),
            MemoryPool::Default,
            SurfaceData::Plain,
        )
    }

    /// Gets the status of the current scanline the rasterizer is processing.
    pub fn get_raster_status(&self) -> (res: Error)
        ensures
            res == Error::NotAvailable,
    {
        // We reported in the device caps that we don't support this.
        Error::NotAvailable
    }

    /// Retrieves the swap chain's display mode.
    pub fn get_display_mode(&self) -> (res: DisplayMode)
        ensures
            res == (DisplayMode {
                width: self.pp.back_buffer_width,
                height: self.pp.back_buffer_height,
                refresh_rate: self.pp.full_screen_refresh_rate_in_hz,
                format: self.pp.back_buffer_format,
            }),
    {
        let pp = &self.pp;

        DisplayMode {
            width: pp.back_buffer_width,
            height: pp.back_buffer_height,
            format: pp.back_buffer_format,
            refresh_rate: pp.full_screen_refresh_rate_in_hz,
        }
    }

    /// Gets the device which created this object.
    pub fn get_device(&self) -> (res: usize)
        ensures
            res == self.parent,
    {
        self.parent
    }

    /// Retrieves the presentation parameters this swap chain was created with.
    pub fn get_present_parameters(&self) -> (res: PresentParameters)
        ensures
            res == self.pp,
    {
        self.pp
    }
}

/// Whatever is asked for, the swap chain that is described has between one
/// and three buffers of between one and sixteen samples, is multisampled
/// only if it discards, and has exactly one buffer if it copies.
pub proof fn described_swap_chain_is_in_bounds(pp: PresentParameters, window: usize, client: Rect)
    requires
        can_describe(pp),
    ensures
        1 <= swap_chain_desc_of(pp, window, client).buffer_count <= 3,
        1 <= swap_chain_desc_of(pp, window, client).sample_desc.count <= 16,
        pp.swap_effect != d3d9::D3DSWAPEFFECT_DISCARD ==> swap_chain_desc_of(
            pp,
            window,
            client,
        ).sample_desc.count == 1,
        pp.swap_effect == d3d9::D3DSWAPEFFECT_COPY ==> swap_chain_desc_of(
            pp,
            window,
            client,
        ).buffer_count == 1,
        swap_chain_desc_of(pp, window, client).buffer_desc.format
            == dxgi::DXGI_FORMAT_B8G8R8A8_UNORM || swap_chain_desc_of(
            pp,
            window,
            client,
        ).buffer_desc.format == dxgi::DXGI_FORMAT_R10G10B10A2_UNORM,
{
}

/// A swap chain that is described again for the parameters that were filled
/// in is the same: those parameters are a fixed point.
pub proof fn resolved_parameters_are_stable(pp: PresentParameters, window: usize, client: Rect)
    requires
        can_describe(pp),
        resolved_size(pp, client).0 != 0,
        resolved_size(pp, client).1 != 0,
    ensures
        can_describe(resolved_parameters(pp, client)),
        resolved_parameters(resolved_parameters(pp, client), client) == resolved_parameters(
            pp,
            client,
        ),
        swap_chain_desc_of(resolved_parameters(pp, client), window, client) == swap_chain_desc_of(
            pp,
            window,
            client,
        ),
{
}

/// The buffers of a swap chain are back buffers that are rendered to.
pub proof fn back_buffer_usage()
    by (bit_vector)
    ensures
        BACK_BUFFER_USAGE == dxgi::DXGI_USAGE_BACK_BUFFER | dxgi::DXGI_USAGE_RENDER_TARGET_OUTPUT,
{
}

/// The interval of a swap chain is never more than four.
pub proof fn sync_interval_is_clamped(interval: u32)
    ensures
        clamp(interval, 0, MAX_SYNC_INTERVAL) <= 4,
        interval <= 4 ==> clamp(interval, 0, MAX_SYNC_INTERVAL) == interval,
{
}

} // verus!
