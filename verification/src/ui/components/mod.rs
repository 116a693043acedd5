//! Reusable pieces of the shell's windows.

pub mod log;
