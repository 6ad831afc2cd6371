//! Direct3D 9 on top of Direct3D 11 and DXGI: the translation engine.
//!
//! The library holds the rules by which the objects, formats, usages and
//! states of the legacy interface are expressed in the modern one. It never
//! talks to the platform itself: it says what is to be created, bound,
//! mapped or presented, and is told what came of it.

pub mod abi;
pub mod error;
pub mod base;
pub mod d3d11;
pub mod dev;
pub mod entry;

pub use crate::dev::Device;
pub use crate::error::{Error, Result};
