//! Profile configuration, the resolution of the settings a command runs with,
//! confirmation answers and output formats.
pub mod config;
pub mod context;
pub mod input;
pub mod output;
