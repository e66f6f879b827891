//! Implementations of [`StyledWrite`](crate::styling::StyledWrite), and of their sink for
//! an in-memory string.
use crate::styling::TextSink;
use vstd::prelude::*;
use vstd::string::StringExecFns;

pub mod ansi;
pub mod not_styled;

verus! {

/// A string collects everything written to it, and never fails.
impl TextSink for String {
    open spec fn accepted(&self) -> Seq<char> {
        self@
    }

    open spec fn keeps_text(&self) -> bool {
        true
    }

    open spec fn never_fails(&self) -> bool {
        true
    }

    fn write_text(&mut self, s: &str) -> (r: Result<(), std::io::Error>) {
        self.append(s);
        Ok(())
    }

    fn flush_text(&mut self) -> (r: Result<(), std::io::Error>) {
        Ok(())
    }
}

} // verus!
