//! The aggregate outcome of one run.

use vstd::prelude::*;

verus! {

/// State shared across all adapter invocations of one run.
///
/// The process terminates with a non-zero exit code if `did_error` is `true`
/// when all work is completed. The flag only ever moves from `false` to
/// `true`; when adapters run in parallel, the surrounding program mirrors it
/// in an atomic value and folds the result back in after all of them joined.
#[derive(Clone, Copy, Debug, PartialEq, Eq, Structural)]
pub struct Shared {
    /// Indicates whether an error occurred at some point.
    ///
    /// Do not set this value directly. Use `set_error` instead.
    pub did_error: bool,
}

impl Shared {
    /// A fresh outcome, starting from the given state of the flag.
    pub fn new(did_error: bool) -> (r: Shared)
        ensures
            r.did_error == did_error,
    {
        Shared { did_error }
    }

    /// Records that an error occurred somewhere in the run.
    pub fn set_error(&mut self)
        ensures
            final(self).did_error,
    {
        self.did_error = true;
    }
}

} // verus!
