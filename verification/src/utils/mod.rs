//! Where the shell's assets live.

pub mod file_io;
