//! The failures that end a run: the input stream, the display surface, or
//! the key-event source giving out. A pattern that does not compile is not
//! here: it is absorbed inside the search engine and never escapes it.

use vstd::prelude::*;

verus! {

/// Why the viewer stopped: the input stream failed to produce data (not
/// plain end-of-input), writing or flushing the display surface failed, or
/// the key-event source failed or closed unexpectedly. All three are
/// unrecoverable for the current run.
#[derive(Debug)]
pub enum AppError {
    InputError(String),
    OutputError(String),
    EventSourceError(String),
}

impl AppError {
    /// The message carried by the failure, whichever kind it is.
    pub fn message(&self) -> (r: &str)
        ensures
            self matches AppError::InputError(s) ==> r@ == s@,
            self matches AppError::OutputError(s) ==> r@ == s@,
            self matches AppError::EventSourceError(s) ==> r@ == s@,
    {
        match self {
            AppError::InputError(s) => s.as_str(),
            AppError::OutputError(s) => s.as_str(),
            AppError::EventSourceError(s) => s.as_str(),
        }
    }
}

} // verus!
