//! The two kinds of failure: navigating past an end of the collection, which is
//! detected locally before any fetch, and a fetch that went wrong.

use vstd::prelude::*;

verus! {

/// Navigation was requested past an end of the collection.
#[derive(Clone, Copy, Debug, PartialEq, Eq, Structural)]
pub enum CursorError {
    /// The current page carries no cursor for a later page.
    NoNextCursor,
    /// The current page carries no cursor for an earlier page.
    NoPreviousCursor,
}

impl CursorError {
    /// The text that `message` returns.
    pub open spec fn message_text(self) -> Seq<char> {
        match self {
            CursorError::NoNextCursor => "No next page cursor"@,
            CursorError::NoPreviousCursor => "No previous page cursor"@,
        }
    }

    /// A fixed human-readable description of the condition.
    pub fn message(&self) -> (msg: &'static str)
        ensures
            msg@ == self.message_text(),
    {
        match self {
            CursorError::NoNextCursor => "No next page cursor",
            CursorError::NoPreviousCursor => "No previous page cursor",
        }
    }
}

/// Why an operation that may cross a page boundary failed.
///
/// `E` is the caller's transport or decoding failure; the library never looks
/// inside it and hands it back unchanged.
#[derive(Clone, Debug, PartialEq, Eq)]
pub enum TimelineError<E> {
    /// The collection has no page in the requested direction.
    Cursor(CursorError),
    /// The fetch of the neighbouring page failed.
    Fetch(E),
}

} // verus!
