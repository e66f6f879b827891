//! Representing and manipulating information about the environment.
pub mod command_result;
pub mod git;
pub mod path;
pub mod python;
