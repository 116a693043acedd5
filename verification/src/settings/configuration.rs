//! Fixed settings of the shell. Sizes are whole logical pixels and colour
//! channels are 8-bit, so every value here is an exact integer.

use vstd::prelude::*;

verus! {

pub const WINDOW_WIDTH: u32 = 1300;

pub const WINDOW_HEIGHT: u32 = 600;

pub const WINDOW_WIDTH_VIEWER: u32 = 300;

pub const WINDOW_HEIGHT_VIEWER: u32 = 300;

pub const WINDOW_WIDTH_FRACTALS: u32 = 300;

pub const WINDOW_HEIGHT_FRACTALS: u32 = 300;

pub const WINDOW_WIDTH_SHADERTOY: u32 = 800;

pub const WINDOW_HEIGHT_SHADERTOY: u32 = 500;

pub const COMPONENT_LOG_WIDTH: u32 = 600;

pub const COMPONENT_LOG_HEIGHT: u32 = 200;

pub const GL_CLEAR_COLOR_R: u8 = 70;

pub const GL_CLEAR_COLOR_G: u8 = 70;

pub const GL_CLEAR_COLOR_B: u8 = 70;

pub const GL_CLEAR_COLOR_A: u8 = 255;

pub const GL_DEPTH_SIZE: u8 = 24;

pub const GL_MULTISAMPLING: u16 = 4;

pub const GL_STENCIL_SIZE: u8 = 4;

pub const GL_HARDWARE_ACCELERATED: bool = true;

} // verus!
