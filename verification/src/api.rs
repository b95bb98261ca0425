//! API access layer: request descriptions (paths and methods), typed response
//! models and their table renderings.
pub mod client;
pub mod error;
pub mod models;
pub mod request_desc;
pub mod table;
