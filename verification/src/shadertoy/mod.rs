//! The ShaderToy playground: source assembly, the engine and the toy slot.

pub mod shadertoy_engine;
pub mod shadertoy_manager;
