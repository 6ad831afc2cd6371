//! The objects that a device of the legacy interface is made of.

pub mod device;
pub use self::device::{CopyRequest, Device, DeviceView, OutputBinding};

pub mod resource;
pub use self::resource::Resource;

pub mod surface;
pub use self::surface::{Surface, SurfaceData};

pub mod texture;
pub use self::texture::{BaseTexture, CubeTexture, Texture};

pub mod state;

pub mod shader;
pub use self::shader::{PixelShader, VertexDeclaration, VertexShader};

pub mod buffer;
pub use self::buffer::{IndexBuffer, VertexBuffer};

pub mod swapchain;
pub use self::swapchain::SwapChain;
