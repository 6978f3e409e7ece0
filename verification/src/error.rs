//! The error that the library reports.

use vstd::prelude::*;

verus! {

/// What sort of failure an [`IoError`] stands for.
#[derive(Debug, Clone, Copy, PartialEq, Eq, Structural)]
pub enum IoErrorKind {
    /// Any failure that has no more telling kind.
    Other,
}

/// A failure, with the error that caused it.
#[derive(Debug)]
pub struct IoError<E> {
    /// The sort of failure.
    pub kind: IoErrorKind,
    /// What went wrong.
    pub error: E,
}

/// Wraps `e` as a failure of no particular kind.
pub fn io_err<E>(e: E) -> (r: IoError<E>)
    ensures
        r == (IoError { kind: IoErrorKind::Other, error: e }),
{
    IoError { kind: IoErrorKind::Other, error: e }
}

} // verus!
