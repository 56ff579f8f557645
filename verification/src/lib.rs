//! Argument-rewriting logic for a `cargo clippy` wrapper.
//!
//! The wrapper accepts a small argument vector, splits it at the `--`
//! separator into cargo-level and clippy-level segments, detects which
//! defaulting decisions the caller has already made, injects the missing
//! repository defaults, and assembles the final command line for
//! `cargo clippy`.  Everything here is pure data transformation; the
//! process spawning and environment lookups live outside this library.

pub mod compose;
pub mod defaults;
pub mod exit;
pub mod flags;
pub mod split;
pub mod tokens;
