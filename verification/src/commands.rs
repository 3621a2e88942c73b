//! Subcommand argument types.

pub mod config;
