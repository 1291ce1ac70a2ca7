//! A prompt-construction and response-extraction pipeline for a hosted
//! chat model.
//!
//! A task template and a task body are staged in a builder and frozen into
//! a `Prompt`; the renderer turns the prompt into the two-message (system,
//! user) request form; and, once the transport has answered, the extractor
//! recovers the final answer from the raw reply, splitting it at the
//! output token when behaviour instructions were used. Every step states
//! what it returns, for every input, and the transport itself (HTTP, JSON,
//! credentials) stays outside this crate.

pub mod clients;
pub mod models;
pub mod prompts;
pub mod text;
