[package]
name = "d3d9_to_11"
version = "0.1.0"
edition = "2021"
publish = false

[dependencies]
log = "0.4"
env_logger = "0.11"
nalgebra = "0.33"
winapi = { version = "0.3", features = ["d3d9", "d3d9caps", "d3d9types", "d3d11", "d3dcommon", "dxgi", "dxgiformat", "dxgitype", "guiddef", "minwindef", "unknwnbase", "windef", "winerror", "winuser"] }
