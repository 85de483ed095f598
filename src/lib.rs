//! Explicitly discarding the outcome of a fallible call.
//!
//! Calling `.ignore()` on a `Result` marks the outcome as deliberately
//! unused, in "best effort" situations where success or failure does not
//! matter. Unlike `let _ = ...` it is a named, searchable marker, and unlike
//! `.unwrap()` it never turns a recoverable failure into a panic.
use vstd::prelude::*;

verus! {

/// Consumes the outcome of a call whose success or failure is irrelevant.
///
/// A call to [`Ignore::ignore()`] avoids warnings about unused results
/// without a possibly panicking call to `.unwrap()` when the success of the
/// preceding call is not guaranteed.
pub trait Ignore {
    /// Discards `self`: accepted on every value, returns nothing, and
    /// leaves the value as it was (it is only borrowed for reading).
    fn ignore(&self) -> (r: ())
        ensures
            r == (),
    {
    }
}

impl<T, E> Ignore for Result<T, E> {}

/// Discarding accepts every outcome, success or failure, and whatever a
/// call hands back is nothing: so a second discard of the same outcome is
/// accepted just as the first and has the same (empty) result.
pub proof fn lemma_ignore_total<T, E>(outcome: Result<T, E>)
    ensures
        call_requires(<Result<T, E> as Ignore>::ignore, (&outcome,)),
        forall|r: ()| call_ensures(<Result<T, E> as Ignore>::ignore, (&outcome,), r) ==> r == (),
{
}

} // verus!
