//! Compile-time settings and the log buffer.

pub mod configuration;
pub mod kuplung_logger;
