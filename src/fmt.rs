//! Formatting of information about the environment.
pub mod command_result;
pub mod duration;
pub mod git;
pub mod path;
