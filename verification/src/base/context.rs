//! The interface which stores all application context.
//!
//! It lists the adapters of the system and answers what can be created on
//! them.

use vstd::prelude::*;
use crate::abi::d3d9;
use crate::abi::d3d9::{
    AdapterIdentifier, Caps, CreationParameters, DisplayMode, PresentParameters, Rect,
};
use crate::abi::dxgi::AdapterDesc;
use crate::base::adapter::{
    caps_of, count_of, display_mode_of, format_is_supported, Adapter, AdapterView,
};
use crate::base::check_not_null;
use crate::base::fmt::{
    depth_stencil_format, display_mode_format, is_depth_stencil_format, is_display_mode_format,
};
use crate::base::format::{resource_format_of, D3DFormatExt};
use crate::dev::swapchain::{extent, extent_of};
use crate::error::{Error, Result};

verus! {

/// Interface which stores all application context.
pub struct Context {
    factory: usize,
    adapters: Vec<Adapter>,
}

/// What a [`Context`] holds.
pub struct ContextView {
    /// The factory of the presentation layer.
    pub factory: usize,
    /// The adapters of the system, by ordinal.
    pub adapters: Seq<AdapterView>,
}

impl ContextView {
    /// The error with which a request is refused before it is looked at:
    /// for an adapter that does not exist, or a kind of device other than
    /// the one that renders in hardware.
    pub open spec fn refusal(self, adapter: u32, ty: u32) -> Option<Error> {
        if adapter >= self.adapters.len() || ty != d3d9::D3DDEVTYPE_HAL {
            Some(Error::InvalidCall)
        } else {
            None
        }
    }
}

impl View for Context {
    type V = ContextView;

    closed spec fn view(&self) -> ContextView {
        ContextView {
            factory: self.factory,
            adapters: Seq::new(self.adapters@.len(), |i: int| self.adapters@[i]@),
        }
    }
}

/// The display mode of a monitor that covers the given rectangle of the
/// desktop. The refresh rate is the one the adapter chooses, and the format
/// the one that modern displays use.
pub open spec fn monitor_mode_of(rc: Rect) -> DisplayMode {
    DisplayMode {
        width: extent_of(rc.left, rc.right),
        height: extent_of(rc.top, rc.bottom),
        refresh_rate: 0,
        format: d3d9::D3DFMT_X8R8G8B8,
    }
}

impl Context {
    /// Creates a new context from the factory of the presentation layer and
    /// the adapters that it lists.
    pub fn new(factory: usize, adapters: Vec<Adapter>) -> (res: Self)
        ensures
            res@.factory == factory,
            res@.adapters == Seq::new(adapters@.len(), |i: int| adapters@[i]@),
    {
        Self { factory, adapters }
    }

    fn check_adapter(&self, adapter: u32) -> (res: Result<&Adapter>)
        ensures
            adapter < self@.adapters.len() ==> res is Ok && res->Ok_0@
                == self@.adapters[adapter as int],
            adapter >= self@.adapters.len() ==> res is Err && res->Err_0 == Error::InvalidCall,
    {
        if (adapter as usize) < self.adapters.len() {
            Ok(&self.adapters[adapter as usize])
        } else {
            Err(Error::InvalidCall)
        }
    }

    fn check_devty(&self, dev_ty: u32) -> (res: Error)
        ensures
            res == (if dev_ty == d3d9::D3DDEVTYPE_HAL {
                Error::Success
            } else {
                Error::InvalidCall
            }),
    {
        if dev_ty == d3d9::D3DDEVTYPE_HAL {
            Error::Success
        } else {
            Error::InvalidCall
        }
    }

    fn check(&self, adapter: u32, ty: u32) -> (res: Result<&Adapter>)
        ensures
            match self@.refusal(adapter, ty) {
                Some(e) => res is Err && res->Err_0 == e,
                None => res is Ok && res->Ok_0@ == self@.adapters[adapter as int],
            },
    {
        let found = match self.check_adapter(adapter) {
            Ok(found) => found,
            Err(e) => {
                return Err(e);
            },
        };
        match self.check_devty(ty) {
            Error::Success => Ok(found),
            e => Err(e),
        }
    }

    /// Used to register a software rasterizer. Software rendering is not
    /// supported, but success is reported: all the call would do is allow
    /// software rasterization where the adapter cannot render in hardware.
    pub fn register_software_device(&self, init_fn: usize) -> (res: Error)
        ensures
            res == (if init_fn == 0 {
                Error::InvalidCall
            } else {
                Error::Success
            }),
    {
        match check_not_null(init_fn) {
            Error::Success => {},
            e => {
                return e;
            },
        }

        Error::Success
    }

    /// Returns the number of adapters installed on the system.
    pub fn get_adapter_count(&self) -> (res: u32)
        ensures
            res == count_of(self@.adapters.len()),
    {
        (self.adapters.len() as u64 % 0x1_0000_0000) as u32
    }

    /// Returns a description of an adapter, from what the platform tells of
    /// it.
    pub fn get_adapter_identifier(&self, adapter: u32, _flags: u32, desc: &AdapterDesc) -> (res:
        Result<AdapterIdentifier>)
        ensures
            adapter >= self@.adapters.len() ==> res is Err && res->Err_0 == Error::InvalidCall,
            adapter < self@.adapters.len() ==> res is Ok && ({
                let id = res->Ok_0;
                &&& id.driver@ == "D3D 9-to-11 Driver"@
                &&& id.description@ == crate::base::str::utf16_decode_lossy(
                    desc.description@,
                ).filter(|c: char| crate::base::str::is_not_nul(c)) + " (D3D 9-to-11 Device)"@
                &&& id.device_name@ == "DISPLAY"@ + crate::base::adapter::decimal_digits(
                    self@.adapters[adapter as int].index as nat,
                )
                &&& id.driver_version == 1
                &&& id.vendor_id == desc.vendor_id
                &&& id.device_id == desc.device_id
                &&& id.sub_sys_id == desc.sub_sys_id
                &&& id.revision == desc.revision
                &&& id.whql_level == 1
            }),
    {
        match self.check_adapter(adapter) {
            Ok(found) => Ok(found.identifier(desc)),
            Err(e) => Err(e),
        }
    }

    /// Returns the number of display modes with a certain format an adapter
    /// supports; zero for an adapter that does not exist.
    pub fn get_adapter_mode_count(&self, adapter: u32, fmt: u32) -> (res: u32)
        ensures
            res == (if adapter < self@.adapters.len() {
                count_of(self@.adapters[adapter as int].modes(fmt).len())
            } else {
                0
            }),
    {
        match self.check_adapter(adapter) {
            Ok(found) => found.mode_count(fmt),
            Err(_) => 0,
        }
    }

    /// Stores the display modes of the output of an adapter for a format.
    /// Nothing happens for an adapter that does not exist.
    pub fn cache_display_modes(
        &mut self,
        adapter: u32,
        fmt: u32,
        modes: Vec<crate::abi::dxgi::ModeDesc>,
    )
        ensures
            final(self)@.factory == old(self)@.factory,
            final(self)@.adapters.len() == old(self)@.adapters.len(),
            forall|i: int|
                0 <= i < old(self)@.adapters.len() ==> #[trigger] final(self)@.adapters[i] == (
                if i == adapter {
                    old(self)@.adapters[i].with_modes(fmt, modes@)
                } else {
                    old(self)@.adapters[i]
                }),
    {
        if (adapter as usize) < self.adapters.len() {
            self.adapters[adapter as usize].cache_display_modes(fmt, modes);
        }
    }

    /// Retrieves a display mode of an adapter.
    pub fn enum_adapter_modes(&self, adapter: u32, fmt: u32, i: u32) -> (res: Result<DisplayMode>)
        ensures
            res == (if adapter >= self@.adapters.len() {
                Err::<DisplayMode, Error>(Error::InvalidCall)
            } else if i < self@.adapters[adapter as int].modes(fmt).len() {
                Ok::<DisplayMode, Error>(
                    display_mode_of(self@.adapters[adapter as int].modes(fmt)[i as int], fmt),
                )
            } else {
                Err::<DisplayMode, Error>(Error::NotAvailable)
            }),
    {
        let found = match self.check_adapter(adapter) {
            Ok(found) => found,
            Err(e) => {
                return Err(e);
            },
        };

        match found.mode(fmt, i) {
            Some(mode) => Ok(mode),
            None => Err(Error::NotAvailable),
        }
    }

    /// Retrieve the current display mode of an adapter, from the rectangle
    /// that its monitor covers.
    pub fn get_adapter_display_mode(&self, rc: Rect) -> (res: DisplayMode)
        ensures
            res == monitor_mode_of(rc),
    {
        DisplayMode {
            width: extent(rc.left, rc.right),
            height: extent(rc.top, rc.bottom),
            // 0 indicates an adapter-default rate.
            refresh_rate: 0,
            // This format is usually what modern displays use internally.
            format: d3d9::D3DFMT_X8R8G8B8,
        }
    }

    /// Checks if an adapter is hardware accelerated.
    pub fn check_device_type(
        &self,
        adapter: u32,
        ty: u32,
        adapter_fmt: u32,
        _bb_fmt: u32,
        _windowed: u32,
    ) -> (res: Error)
        ensures
            res == (match self@.refusal(adapter, ty) {
                Some(e) => e,
                None => if display_mode_format(adapter_fmt) {
                    Error::Success
                } else {
                    Error::NotAvailable
                },
            }),
    {
        match self.check(adapter, ty) {
            Ok(_) => {},
            Err(e) => {
                return e;
            },
        }

        // We support hardware accel with all valid formats.
        if is_display_mode_format(adapter_fmt) {
            Error::Success
        } else {
            Error::NotAvailable
        }
    }

    /// Checks a request for whether a format can be used for something, and
    /// gives the modern format whose support is to be asked of the device.
    /// A format without a modern counterpart cannot be used for anything.
    pub fn check_device_format(
        &self,
        adapter: u32,
        ty: u32,
        _adapter_fmt: u32,
        _usage: u32,
        _rt: u32,
        check_fmt: u32,
    ) -> (res: Result<u32>)
        ensures
            res == (match self@.refusal(adapter, ty) {
                Some(e) => Err::<u32, Error>(e),
                None => match resource_format_of(check_fmt) {
                    Some(format) => Ok::<u32, Error>(format),
                    None => Err::<u32, Error>(Error::NotAvailable),
                },
            }),
    {
        match self.check(adapter, ty) {
            Ok(_) => {},
            Err(e) => {
                return Err(e);
            },
        }

        match check_fmt.checked_to_dxgi() {
            Some(format) => Ok(format),
            None => Err(Error::NotAvailable),
        }
    }

    /// Takes the support that the device reports for a format, and says
    /// whether the format can be used for a kind of resource and a usage.
    pub fn device_format_checked(&self, adapter: u32, usage: u32, rt: u32, result: i32, support: u32) -> (res:
        Error)
        ensures
            res == (if adapter >= self@.adapters.len() {
                Error::InvalidCall
            } else if format_is_supported(rt, usage, result, support) {
                Error::Success
            } else {
                Error::NotAvailable
            }),
    {
        let found = match self.check_adapter(adapter) {
            Ok(found) => found,
            Err(e) => {
                return e;
            },
        };

        if found.is_format_supported(rt, usage, result, support) {
            Error::Success
        } else {
            Error::NotAvailable
        }
    }

    /// Checks a request for whether a format can be used with
    /// multisampling, and gives the modern format whose quality levels are
    /// to be asked of the device.
    pub fn check_device_multi_sample_type(
        &self,
        adapter: u32,
        ty: u32,
        surface_fmt: u32,
        _windowed: u32,
        _mst: u32,
    ) -> (res: Result<u32>)
        ensures
            res == (match self@.refusal(adapter, ty) {
                Some(e) => Err::<u32, Error>(e),
                None => match resource_format_of(surface_fmt) {
                    Some(format) => Ok::<u32, Error>(format),
                    None => Err::<u32, Error>(Error::NotAvailable),
                },
            }),
    {
        match self.check(adapter, ty) {
            Ok(_) => {},
            Err(e) => {
                return Err(e);
            },
        }

        match surface_fmt.checked_to_dxgi() {
            Some(format) => Ok(format),
            None => Err(Error::NotAvailable),
        }
    }

    /// Takes the number of quality levels that the device reports for a
    /// format and a number of samples. None at all means that the format
    /// cannot be multisampled.
    pub fn device_multi_sample_type_checked(quality_levels: u32) -> (res: Error)
        ensures
            res == (if quality_levels == 0 {
                Error::NotAvailable
            } else {
                Error::Success
            }),
    {
        // Max quality of 0 would mean no support for MS.
        if quality_levels == 0 {
            Error::NotAvailable
        } else {
            Error::Success
        }
    }

    /// Checks if a depth/stencil format can be used with a render target
    /// format.
    pub fn check_depth_stencil_match(
        &self,
        adapter: u32,
        ty: u32,
        _adapter_fmt: u32,
        _rt_fmt: u32,
        ds_fmt: u32,
    ) -> (res: Error)
        ensures
            res == (match self@.refusal(adapter, ty) {
                Some(e) => e,
                None => if depth_stencil_format(ds_fmt) {
                    Error::Success
                } else {
                    Error::NotAvailable
                },
            }),
    {
        match self.check(adapter, ty) {
            Ok(_) => {},
            Err(e) => {
                return e;
            },
        }

        // We don't check the adapter fmt / render target fmt since on modern
        // hardware basically any valid combination of formats is allowed.
        // We only have to check that the format which was passed in
        // can be used with d/s buffers.
        if is_depth_stencil_format(ds_fmt) {
            Error::Success
        } else {
            Error::NotAvailable
        }
    }

    /// Checks if a conversion between two given formats is supported.
    pub fn check_device_format_conversion(&self, adapter: u32, ty: u32, _src_fmt: u32, _tgt_fmt: u32) -> (res:
        Error)
        ensures
            res == (match self@.refusal(adapter, ty) {
                Some(e) => e,
                None => Error::Success,
            }),
    {
        match self.check(adapter, ty) {
            Ok(_) => {},
            Err(e) => {
                return e;
            },
        }

        // For most types we can simply convert them to the right format on-the-fly.
        Error::Success
    }

    /// Returns a structure describing the features and limits of an adapter.
    pub fn get_device_caps(&self, adapter: u32, ty: u32) -> (res: Result<Caps>)
        ensures
            res == (match self@.refusal(adapter, ty) {
                Some(e) => Err::<Caps, Error>(e),
                None => Ok::<Caps, Error>(caps_of(self@.adapters[adapter as int].index)),
            }),
    {
        match self.check(adapter, ty) {
            Ok(found) => Ok(found.caps()),
            Err(e) => Err(e),
        }
    }

    /// Retrieves the adapter of the modern interface that an ordinal names.
    pub fn get_adapter_handle(&self, adapter: u32) -> (res: Result<usize>)
        ensures
            res == (if adapter < self@.adapters.len() {
                Ok::<usize, Error>(self@.adapters[adapter as int].adapter)
            } else {
                Err::<usize, Error>(Error::InvalidCall)
            }),
    {
        match self.check_adapter(adapter) {
            Ok(found) => Ok(found.handle()),
            Err(e) => Err(e),
        }
    }

    /// Retrieves the device of the modern interface that was created for an
    /// adapter.
    pub fn get_adapter_device(&self, adapter: u32) -> (res: Result<usize>)
        ensures
            res == (if adapter < self@.adapters.len() {
                Ok::<usize, Error>(self@.adapters[adapter as int].device)
            } else {
                Err::<usize, Error>(Error::InvalidCall)
            }),
    {
        match self.check_adapter(adapter) {
            Ok(found) => Ok(found.device()),
            Err(e) => Err(e),
        }
    }

    /// Says which list of display modes is to be retrieved before the modes
    /// of a format of an adapter are asked for: the output to ask and the
    /// modern format to ask it for, or nothing if the list is there already
    /// or there is none to get.
    pub fn uncached_mode_list(&self, adapter: u32, fmt: u32) -> (res: Option<(usize, u32)>)
        ensures
            res == (if adapter < self@.adapters.len() && self@.adapters[adapter as int].lists_modes(
                fmt,
            ) && !self@.adapters[adapter as int].mode_cache.contains_key(fmt) {
                Some((self@.adapters[adapter as int].output.unwrap(), resource_format_of(fmt).unwrap()))
            } else {
                None
            }),
    {
        let found = match self.check_adapter(adapter) {
            Ok(found) => found,
            Err(_) => {
                return None;
            },
        };
        match (found.output(), found.uncached_mode_list(fmt)) {
            (Some(output), Some(format)) => Some((output, format)),
            _ => None,
        }
    }

    /// Retrieves the monitor associated with an adapter, or zero.
    pub fn get_adapter_monitor(&self, adapter: u32) -> (res: usize)
        ensures
            res == (if adapter < self@.adapters.len() {
                match self@.adapters[adapter as int].output_desc {
                    Some(desc) => desc.monitor,
                    None => 0,
                }
            } else {
                0
            }),
    {
        match self.check_adapter(adapter) {
            Ok(found) => found.monitor(),
            Err(_) => 0,
        }
    }

    /// Checks a request for a logical device on an adapter. Gives the
    /// device of the modern interface on which the logical device is to be
    /// built, the creation parameters that the device is to remember, and
    /// whether a device that spans several adapters was asked for, which is
    /// not supported and worth a line in the log.
    pub fn create_device(&self, adapter: u32, ty: u32, focus: usize, flags: u32, _pp: &PresentParameters) -> (res:
        Result<(usize, CreationParameters, bool)>)
        ensures
            res == (match self@.refusal(adapter, ty) {
                Some(e) => Err::<(usize, CreationParameters, bool), Error>(e),
                None => Ok::<(usize, CreationParameters, bool), Error>(
                    (
                        self@.adapters[adapter as int].device,
                        CreationParameters {
                            adapter_ordinal: adapter,
                            device_type: d3d9::D3DDEVTYPE_HAL,
                            focus_window: focus,
                            behavior_flags: flags,
                        },
                        flags & d3d9::D3DCREATE_ADAPTERGROUP_DEVICE != 0,
                    ),
                ),
            }),
    {
        match self.check_devty(ty) {
            Error::Success => {},
            e => {
                return Err(e);
            },
        }

        let multi_adapter = flags & d3d9::D3DCREATE_ADAPTERGROUP_DEVICE != 0;

        // Pass on the modern device.
        let device = match self.check_adapter(adapter) {
            Ok(found) => found.device(),
            Err(e) => {
                return Err(e);
            },
        };

        // This struct stores the device creation parameters as they were given.
        let cp = CreationParameters {
            adapter_ordinal: adapter,
            device_type: d3d9::D3DDEVTYPE_HAL,
            focus_window: focus,
            behavior_flags: flags,
        };

        Ok((device, cp, multi_adapter))
    }
}

} // verus!
