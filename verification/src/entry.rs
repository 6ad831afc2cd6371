//! What the entry points of the library decide.

use vstd::prelude::*;
use crate::error::Error;

verus! {

/// The version of the development kit of the last release of the legacy
/// interface, against which apps are expected to be built.
pub const SDK_VERSION: u32 = 32;

/// Whether an app was built against a version of the development kit that
/// is known. An app built against another one is served all the same.
pub fn is_known_sdk_version(sdk_version: u32) -> (res: bool)
    ensures
        res == (sdk_version == SDK_VERSION),
{
    sdk_version == SDK_VERSION
}

/// The answer to a request for the extended variant of the legacy
/// interface, which is not supported.
pub fn extended_interface() -> (res: Error)
    ensures
        res == Error::NotAvailable,
{
    Error::NotAvailable
}

} // verus!
