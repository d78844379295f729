//! The inference server.
pub mod config;
pub mod formatter;
pub mod interchange;
pub mod names;
pub mod preprocessor;
pub mod server;
pub mod services;
pub mod types;
pub mod wire;
