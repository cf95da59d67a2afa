//! Buffering and control logic for streaming DEFLATE adapters.
//!
//! The native codec engine is driven from outside this library: the adapters
//! here decide what the engine is asked to do next, check what it reports,
//! and keep the staging and output buffers consistent.

pub mod engine;
pub mod pull;
pub mod push;
