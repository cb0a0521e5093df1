//! Decision values returned by fast compare-and-swap operations.

use vstd::prelude::*;

verus! {

/// Decision returned by one `FastCas` operation attempt.
///
/// The operation may be called multiple times when CAS conflicts happen, so it
/// should be deterministic and free of non-idempotent side effects.
#[derive(Debug, Clone, Copy, PartialEq, Eq)]
pub enum FastCasDecision<R, E> {
    /// Replace the current state with `next` and return `output` after the CAS
    /// write succeeds.
    Update {
        /// State code to install.
        next: u64,
        /// Business output returned after success.
        output: R,
    },
    /// Complete successfully without writing a new state.
    Finish {
        /// Business output returned immediately.
        output: R,
    },
    /// Stop immediately without writing a new state.
    Abort {
        /// Business error returned to the caller.
        error: E,
    },
}

impl<R, E> FastCasDecision<R, E> {
    /// Creates an update decision.
    pub fn update(next: u64, output: R) -> (r: Self)
        ensures
            r == (FastCasDecision::<R, E>::Update { next, output }),
    {
        FastCasDecision::Update { next, output }
    }

    /// Creates a finish decision.
    pub fn finish(output: R) -> (r: Self)
        ensures
            r == (FastCasDecision::<R, E>::Finish { output }),
    {
        FastCasDecision::Finish { output }
    }

    /// Creates an abort decision.
    pub fn abort(error: E) -> (r: Self)
        ensures
            r == (FastCasDecision::<R, E>::Abort { error }),
    {
        FastCasDecision::Abort { error }
    }
}

} // verus!
