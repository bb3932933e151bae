//! Error types.

use vstd::prelude::*;

verus! {

/// Invalid tag error.
#[derive(Debug)]
pub struct InvalidTagError(());

impl InvalidTagError {
    /// Create an error.
    pub fn new() -> Self {
        Self(())
    }

    /// The error in words.
    pub fn message(&self) -> (message: &'static str)
        ensures
            message@ == "invalid id tag"@,
    {
        "invalid id tag"
    }
}

/// Invalid id error.
#[derive(Debug)]
pub struct InvalidIdError {
    /// Reason why the id is invalid.
    reason: &'static str,
}

impl InvalidIdError {
    /// Create an error with the given reason.
    pub fn new(reason: &'static str) -> (error: Self)
        ensures
            error.reason_text() == reason@,
    {
        Self { reason }
    }

    /// Reason why the id is invalid, as a sequence of characters.
    pub closed spec fn reason_text(&self) -> Seq<char> {
        self.reason@
    }

    /// Reason why the id is invalid.
    pub fn reason(&self) -> (reason: &'static str)
        ensures
            reason@ == self.reason_text(),
    {
        self.reason
    }
}

} // verus!
