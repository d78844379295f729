//! Core logic of a model build orchestrator and of the inference server that
//! runs inside the images it builds.
//!
//! The `remote_build` modules hold the rules of the remote build service: how an image
//! reference is assembled, what a build job's manifest is rendered from, how a
//! job's status is read and what the supervisor of a running build does. The
//! `inference` modules hold the rules of the inference server: how requests are
//! turned into model inputs, how a model's answer becomes a response and how
//! the server starts and stops.
use vstd::prelude::*;

pub mod remote_build;
pub mod text;
pub mod inference;

verus! {

/// Port on which the build service listens.
pub const PORT: u16 = 8080;

} // verus!
