//! The device of the modern interface.

use vstd::prelude::*;

verus! {

/// Names a device of the modern interface.
#[derive(Debug, Copy, Clone, PartialEq, Eq, Structural)]
pub struct Device {
    pub device: usize,
}

impl Device {
    /// Creates a new device wrapper.
    pub fn new(device: usize) -> (res: Self)
        ensures
            res.device == device,
    {
        Self { device }
    }
}

} // verus!
