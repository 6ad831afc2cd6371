//! Plain-value pictures of the two graphics interfaces.
//!
//! Every enumerant, flag word and structure that crosses the boundary to the
//! platform is held here as integers. Objects that live on the other side of
//! that boundary (windows, monitors, devices, images, views) are named by an
//! address-sized handle; zero stands for "none". Single-precision numbers are
//! carried as their IEEE-754 bit pattern.

pub mod d3d11;
pub mod d3d9;
pub mod dxgi;

use vstd::prelude::*;

verus! {

/// Bit pattern of the single-precision number 0.0.
pub const FLOAT_ZERO: u32 = 0x0000_0000;

/// Bit pattern of the single-precision number 1.0.
pub const FLOAT_ONE: u32 = 0x3F80_0000;

/// Bit pattern of the single-precision number 8.0.
pub const FLOAT_EIGHT: u32 = 0x4100_0000;

/// Bit pattern of the single-precision number 256.0.
pub const FLOAT_256: u32 = 0x4380_0000;

/// Bit pattern of the largest finite single-precision number.
pub const FLOAT_MAX: u32 = 0x7F7F_FFFF;

} // verus!
