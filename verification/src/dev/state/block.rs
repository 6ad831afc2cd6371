//! State blocks: records of portions of a device's state.

use vstd::prelude::*;
use crate::error::{Error, Result};

verus! {

/// Object which records some portions of a device's state.
#[derive(Debug, Copy, Clone, PartialEq, Eq, Structural)]
pub struct StateBlock {
    pub device: usize,
}

impl StateBlock {
    /// Creates a new empty state block. Recording of state is not
    /// implemented, so none is ever created.
    pub fn new(_device: usize, _ty: u32) -> (res: Result<Self>)
        ensures
            res == Err::<StateBlock, Error>(Error::NotAvailable),
    {
        Err(Error::NotAvailable)
    }

    /// Retrieves the device which owns this state block.
    pub fn get_device(&self) -> (res: usize)
        ensures
            res == self.device,
    {
        self.device
    }

    /// Captures the current values for the state which is already in this block.
    pub fn capture(&mut self) -> (res: Error)
        ensures
            res == Error::NotAvailable,
            *final(self) == *old(self),
    {
        Error::NotAvailable
    }

    /// Applies the contained state to the parent device.
    pub fn apply(&self) -> (res: Error)
        ensures
            res == Error::NotAvailable,
    {
        Error::NotAvailable
    }
}

} // verus!
