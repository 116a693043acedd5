//! The shell as a whole.

pub mod app;
