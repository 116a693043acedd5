//! What the shell's windows remember between frames.

pub mod components;
pub mod panel_backend;
pub mod ui_manager;
