//! Prompt relay: the decisions of a small desktop backend that forwards user
//! prompts to a locally hosted language-model service.
//!
//! The crate holds no network code. Each operation is split in two halves: one
//! that says what is to be asked of the service, and one that turns whatever the
//! service answered into the value handed to the front end. The caller performs
//! the exchange in between.

pub mod text;
pub mod availability;
pub mod ollama_integration;
pub mod ai_integration;
pub mod commands;
