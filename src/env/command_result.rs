//! Results of commands or processes.
use vstd::prelude::*;

verus! {

/// A program's exit code.
#[derive(Debug, Default, Clone, Copy, PartialEq, Eq, Hash)]
pub struct ExitCode(pub i32);

impl ExitCode {
    /// Whether the code tells of success: it is zero.
    pub fn is_success(&self) -> (r: bool)
        ensures
            r == (self.0 == 0),
    {
        self.0 == 0
    }

    /// Whether the code tells of failure: it is not zero.
    pub fn is_failure(&self) -> (r: bool)
        ensures
            r == (self.0 != 0),
    {
        !self.is_success()
    }
}

/// Whether a command succeeded or failed.
#[derive(Debug, Clone, Copy, PartialEq, Eq, Hash)]
pub enum CommandResult {
    Success,
    Failure,
}

impl CommandResult {
    /// `Success` when `success`, else `Failure`.
    pub fn from_success(success: bool) -> (r: Self)
        ensures
            r is Success <==> success,
    {
        if success {
            CommandResult::Success
        } else {
            CommandResult::Failure
        }
    }

    /// Whether `self` is `Success`.
    pub fn is_success(&self) -> (r: bool)
        ensures
            r == (*self is Success),
    {
        match self {
            CommandResult::Success => true,
            CommandResult::Failure => false,
        }
    }

    /// Whether `self` is `Failure`.
    pub fn is_failure(&self) -> (r: bool)
        ensures
            r == (*self is Failure),
    {
        !self.is_success()
    }
}

} // verus!
