//! Helper module for the objects of the modern interface.
//!
//! Each wrapper holds the handle of an object and the plain values that the
//! library reads from it. Where the modern interface creates an object,
//! one function here says from what description it is to be created, and a
//! second one takes what the platform made of it.

pub mod util;

pub mod device;
pub use self::device::Device;

pub mod devctx;
pub use self::devctx::{DeviceContext, MapRequest, UnmapRequest};

pub mod buffer;
pub use self::buffer::Buffer;

pub mod texture;
pub use self::texture::Texture2D;
