//! Translation of logging settings into a checked configuration plan.
//!
//! The library resolves a verbosity level from a free-form string, decides
//! which records each sink admits, and assembles the values that drive a
//! size-rotated file sink and an optional console sink.

pub mod config;
pub mod level;

pub use config::LogConfig;
pub use config::build_config;
pub use level::Level;
pub use level::get_level;
