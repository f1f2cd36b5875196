//! Compiled-module framing, artifact views and the per-session arena of
//! runtime objects for a WebAssembly engine.

pub mod error;
pub mod header;
pub mod ids;
pub mod context;
pub mod engine;
pub mod artifact;
