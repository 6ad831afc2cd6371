//! Core function and type definitions.
//!
//! This module contains the fundamental building blocks on top of which the rest
//! of the library is built.

pub mod adapter;
pub use self::adapter::Adapter;

pub mod context;
pub use self::context::Context;

pub mod enums;
pub mod fmt;
pub mod format;
pub mod msample;
pub mod str;

use vstd::prelude::*;
use crate::error::Error;

verus! {

/// Checks that an address handed in as a pointer parameter is not null.
pub fn check_not_null(ptr: usize) -> (res: Error)
    ensures
        res == (if ptr == 0 { Error::InvalidCall } else { Error::Success }),
{
    if ptr == 0 {
        Error::InvalidCall
    } else {
        Error::Success
    }
}

/// Turns the status of a call into the modern interface into a status of the
/// legacy one. Zero is the only success; whatever else comes back is a
/// failure inside the driver.
pub fn check_hresult(result: i32) -> (res: Error)
    ensures
        res == (if result == 0 { Error::Success } else { Error::DriverInternalError }),
{
    if result == 0 {
        Error::Success
    } else {
        Error::DriverInternalError
    }
}

} // verus!
