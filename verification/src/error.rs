//! The error taxonomy of a collection run. A malformed page body is not an
//! error here: the pagination engine absorbs it as an end-of-results signal.

use vstd::prelude::*;

verus! {

/// A failure surfaced by a collector.
#[derive(Clone, Copy, Debug, PartialEq, Eq, Structural)]
pub enum EcstasyError {
    /// The network transport failed while issuing a request; fatal to that
    /// collector's run, tolerated by the run as a whole.
    Transport,
    /// An operation was invoked on a collector whose source model does not
    /// support it, such as numeric paging on a listing-style source.
    UnsupportedOperation,
    /// A requested source identifier has no registered collector; reported,
    /// never fatal to the rest of the run.
    UnknownSource,
}

impl EcstasyError {
    /// A short machine-readable label for reporting.
    pub fn label(&self) -> (r: &'static str)
        ensures
            *self == EcstasyError::Transport ==> r@ == "transport failure"@,
            *self == EcstasyError::UnsupportedOperation ==> r@ == "unsupported operation"@,
            *self == EcstasyError::UnknownSource ==> r@ == "unknown source"@,
    {
        match self {
            EcstasyError::Transport => "transport failure",
            EcstasyError::UnsupportedOperation => "unsupported operation",
            EcstasyError::UnknownSource => "unknown source",
        }
    }
}

} // verus!
