//! A GitHub REST adapter for a plugin host: the tool table, argument
//! validation, request construction and response decoding, with contracts.
pub mod args;
pub mod error;
pub mod json;
pub mod laws;
pub mod plugin;
pub mod route;
pub mod text;
pub mod tool;
