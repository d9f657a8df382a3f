//! Supervision and readiness lifecycle for a locally served model backend.
//!
//! The library decides; the surrounding program performs. Every decision the
//! bridge makes — adopting or spawning the backend, polling it for readiness,
//! classifying pull and warm-up outcomes, resolving the downstream executable,
//! wiring its environment — is a verified function here, stated over plain
//! values. The surrounding program carries those decisions out (HTTP requests,
//! process handling, sleeping) and feeds the observed outcomes back in.

pub mod endpoints;
pub mod error;
pub mod json;
pub mod resolver;
pub mod runner;
pub mod supervisor;
pub mod text;
pub mod warmup;
