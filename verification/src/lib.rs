//! A physically based OpenGL renderer core: GPU resources, render passes and
//! scene bookkeeping, each operation specified by the exact OpenGL calls it
//! issues.

pub mod command;
pub mod gl_enums;

pub mod buffer;
pub mod framebuffer;
pub mod shader;
pub mod texture;
pub mod texturecube;
pub mod vao;

pub mod environment_map;
pub mod hdr_pass;
pub mod mesh;
pub mod model;

pub mod camera;
pub mod light;
pub mod ubo_manager;
pub mod window;
