//! A unifying client facade over multiple LLM HTTP provider backends.
//!
//! Callers list or look up available models and run chat completions without
//! knowing which concrete backend protocol is in use. The facade selects one
//! backend variant at construction, caches model metadata to avoid redundant
//! round-trips, and classifies every failure — including per-item failures on
//! a streamed chat response — as retryable or fatal before it reaches the
//! caller.

pub mod backend;
pub mod cache;
pub mod client;
pub mod domain;
pub mod retry;
pub mod transport;
