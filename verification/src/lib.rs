//! Core logic of the WebShield command-line client: name and record
//! normalization, localized messages, profile resolution, response tables,
//! request URLs and publish planning.
pub mod text;
pub mod commands;
pub mod i18n;
pub mod api;
pub mod config;
pub mod util;
