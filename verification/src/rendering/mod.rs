//! The GPU side of the demos, expressed as commands for a host to replay.

pub mod geometry;
pub mod gl_utils;
pub mod gpu;
pub mod program;
pub mod renderer;
pub mod rendering_manager;
pub mod triangler;
