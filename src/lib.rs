//! Utilities for building shell prompts: styled text writers,
//! and formatting of durations, paths, command results and repository status.
pub mod env;
pub mod fmt;
pub mod styling;
pub mod writers;
