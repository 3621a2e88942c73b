//! Resilient request layer for a multi-provider LLM command-line client.
//!
//! The crate resolves request configuration from layered sources, models the
//! JSON bodies exchanged with chat-completion providers, and drives a retry
//! and backoff policy for transient failures. All decision logic is verified;
//! network and file transport live outside the crate.

pub mod ai;
pub mod chat_models;
pub mod commands;
pub mod config;
pub mod embeddings;
pub mod envelope;
pub mod human;
pub mod json;
pub mod provider;
pub mod resolve;
pub mod retry;
pub mod temp;
pub mod text;
pub mod tools;
pub mod wire;
