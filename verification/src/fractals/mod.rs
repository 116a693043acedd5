//! The fractal explorers and the zoom state machine that drives them.

pub mod fractals_manager;
pub mod julia;
pub mod mandelbrot;
