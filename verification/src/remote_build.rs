//! The remote build orchestrator.
pub mod image;
pub mod lifecycle;
pub mod logs;
pub mod manager;
pub mod routes;
pub mod state;
pub mod status;
pub mod supervisor;
pub mod template;
