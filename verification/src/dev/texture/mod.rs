//! Module containing texture-related interfaces.
//!
//! This means 2D textures and cube maps.

pub mod base;
pub use self::base::BaseTexture;

pub mod texture2d;
pub use self::texture2d::Texture;

pub mod cube;
pub use self::cube::CubeTexture;
