//! Successful fast compare-and-swap results.

use vstd::prelude::*;

verus! {

/// Decision path that produced a success.
#[derive(Debug, Clone, Copy, PartialEq, Eq)]
enum FastCasSuccessKind {
    Updated,
    Finished,
}

/// Successful `FastCas` result.
#[derive(Debug, Clone, Copy, PartialEq, Eq)]
pub struct FastCasSuccess<R> {
    /// State observed by the successful attempt.
    previous: u64,
    /// State after completion.
    current: u64,
    /// Business output.
    output: R,
    /// Number of attempts consumed.
    attempts: u32,
    /// Decision path that produced the success.
    kind: FastCasSuccessKind,
}

impl<R> FastCasSuccess<R> {
    /// A success as the executor builds it: it counts at least one attempt,
    /// and a finished success leaves the state it observed in place.
    pub closed spec fn well_formed(self) -> bool {
        &&& self.attempts >= 1
        &&& self.kind == FastCasSuccessKind::Finished ==> self.current == self.previous
    }

    /// State observed by the successful attempt.
    pub closed spec fn spec_previous(self) -> u64 {
        self.previous
    }

    /// State after completion.
    pub closed spec fn spec_current(self) -> u64 {
        self.current
    }

    /// Business output.
    pub closed spec fn spec_output(self) -> R {
        self.output
    }

    /// Number of attempts consumed.
    pub closed spec fn spec_attempts(self) -> u32 {
        self.attempts
    }

    /// Whether the success came from an update decision (otherwise from a
    /// finish decision).
    pub closed spec fn spec_is_updated(self) -> bool {
        self.kind == FastCasSuccessKind::Updated
    }

    /// This success observed `previous`, ends at `current`, carries `output`,
    /// counted `attempts` attempts, and came from an update decision exactly
    /// when `updated`.
    pub open spec fn reports(self, previous: u64, current: u64, output: R, attempts: u32, updated: bool) -> bool {
        &&& self.spec_previous() == previous
        &&& self.spec_current() == current
        &&& self.spec_output() == output
        &&& self.spec_attempts() == attempts
        &&& self.spec_is_updated() == updated
        &&& self.well_formed()
    }

    /// Creates a successful update result.
    pub(crate) fn updated(previous: u64, current: u64, output: R, attempts: u32) -> (r: Self)
        requires
            attempts >= 1,
        ensures
            r.spec_previous() == previous,
            r.spec_current() == current,
            r.spec_output() == output,
            r.spec_attempts() == attempts,
            r.spec_is_updated(),
            r.well_formed(),
    {
        FastCasSuccess { previous, current, output, attempts, kind: FastCasSuccessKind::Updated }
    }

    /// Creates a successful finish result.
    pub(crate) fn finished(current: u64, output: R, attempts: u32) -> (r: Self)
        requires
            attempts >= 1,
        ensures
            r.spec_previous() == current,
            r.spec_current() == current,
            r.spec_output() == output,
            r.spec_attempts() == attempts,
            !r.spec_is_updated(),
            r.well_formed(),
    {
        FastCasSuccess {
            previous: current,
            current,
            output,
            attempts,
            kind: FastCasSuccessKind::Finished,
        }
    }

    /// Returns the state observed before successful completion.
    pub fn previous(&self) -> (r: u64)
        ensures
            r == self.spec_previous(),
    {
        self.previous
    }

    /// Returns the state after completion: the installed state for updates,
    /// or the previous state for finishes.
    pub fn current(&self) -> (r: u64)
        ensures
            r == self.spec_current(),
    {
        self.current
    }

    /// Returns a shared reference to the business output.
    pub fn output(&self) -> (r: &R)
        ensures
            *r == self.spec_output(),
    {
        &self.output
    }

    /// Consumes this result and returns the business output.
    pub fn into_output(self) -> (r: R)
        ensures
            r == self.spec_output(),
    {
        self.output
    }

    /// Returns the number of attempts consumed.
    pub fn attempts(&self) -> (r: u32)
        ensures
            r == self.spec_attempts(),
    {
        self.attempts
    }

    /// Tests whether this success came from an update decision, even if the
    /// installed state equals the previously observed state.
    pub fn is_updated(&self) -> (r: bool)
        ensures
            r == self.spec_is_updated(),
    {
        matches!(self.kind, FastCasSuccessKind::Updated)
    }

    /// Tests whether this success came from a finish decision.
    pub fn is_finished(&self) -> (r: bool)
        ensures
            r == !self.spec_is_updated(),
    {
        matches!(self.kind, FastCasSuccessKind::Finished)
    }
}

/// A well-formed success counts at least one attempt, and one that finished
/// without an update reports the state it observed as its current state.
pub proof fn lemma_finished_keeps_state<R>(s: FastCasSuccess<R>)
    requires
        s.well_formed(),
    ensures
        s.spec_attempts() >= 1,
        !s.spec_is_updated() ==> s.spec_current() == s.spec_previous(),
{
}

} // verus!
