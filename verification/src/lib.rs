//! Verified core of the Kuplung demo shell: the shader-program lifecycle,
//! uniform binding, geometry layout, ShaderToy source assembly and the
//! fractal zoom state machine, all stated over plain values so that a thin
//! host can replay the resulting GPU commands.

pub mod fractals;
pub mod kuplung;
pub mod rendering;
pub mod shadertoy;
pub mod ui;
pub mod utils;
pub mod settings;
