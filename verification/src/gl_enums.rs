//! OpenGL enumerants used by the renderer, with the values that the
//! OpenGL registry assigns to them.

use vstd::prelude::*;

verus! {

pub const TEXTURE_2D: u32 = 0x0DE1;
pub const TEXTURE_CUBE_MAP: u32 = 0x8513;

pub const TEXTURE_WRAP_S: u32 = 0x2802;
pub const TEXTURE_WRAP_T: u32 = 0x2803;
pub const TEXTURE_WRAP_R: u32 = 0x8072;
pub const TEXTURE_MIN_FILTER: u32 = 0x2801;
pub const TEXTURE_MAG_FILTER: u32 = 0x2800;

pub const REPEAT: u32 = 0x2901;
pub const CLAMP_TO_EDGE: u32 = 0x812F;
pub const NEAREST: u32 = 0x2600;
pub const LINEAR: u32 = 0x2601;
pub const LINEAR_MIPMAP_LINEAR: u32 = 0x2703;

pub const RGB: u32 = 0x1907;
pub const RGBA: u32 = 0x1908;
pub const RGB8: u32 = 0x8051;
pub const RGBA8: u32 = 0x8058;
pub const SRGB8: u32 = 0x8C41;
pub const SRGB8_ALPHA8: u32 = 0x8C43;
pub const RGB32F: u32 = 0x8815;
pub const RGB16F: u32 = 0x881B;
pub const RGBA16F: u32 = 0x881A;
pub const R16F: u32 = 0x822D;
pub const DEPTH_COMPONENT24: u32 = 0x81A6;

pub const UNSIGNED_BYTE: u32 = 0x1401;
pub const UNSIGNED_INT: u32 = 0x1405;
pub const FLOAT: u32 = 0x1406;

pub const TRIANGLES: u32 = 0x0004;
pub const TRIANGLE_STRIP: u32 = 0x0005;

pub const FRAMEBUFFER: u32 = 0x8D40;
pub const COLOR_ATTACHMENT0: u32 = 0x8CE0;
pub const DEPTH_ATTACHMENT: u32 = 0x8D00;

pub const UNIFORM_BUFFER: u32 = 0x8A11;
pub const STATIC_DRAW: u32 = 0x88E4;
pub const DYNAMIC_DRAW: u32 = 0x88E8;

pub const LESS: u32 = 0x0201;
pub const LEQUAL: u32 = 0x0203;
pub const CULL_FACE: u32 = 0x0B44;
pub const DEPTH_TEST: u32 = 0x0B71;
pub const BACK: u32 = 0x0405;
pub const TEXTURE_CUBE_MAP_SEAMLESS: u32 = 0x884F;

pub const COLOR_BUFFER_BIT: u32 = 0x0000_4000;
pub const DEPTH_BUFFER_BIT: u32 = 0x0000_0100;

/// The blend-equation enumerant `GL_MAX`; the uniform manager uses its value
/// as the cap on the number of lights that one upload copies.
pub const MAX: u32 = 0x8008;

} // verus!
