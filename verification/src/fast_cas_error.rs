//! Terminal fast compare-and-swap failures.

use vstd::prelude::*;

verus! {

/// Terminal `FastCas` failure.
#[derive(Debug, Clone, Copy, PartialEq, Eq)]
pub enum FastCasError<E> {
    /// The operation aborted from a user decision.
    Abort {
        /// State observed by the aborting attempt.
        current: u64,
        /// Business error returned by the operation.
        error: E,
        /// Number of attempts consumed before aborting.
        attempts: u32,
    },
    /// CAS conflicts exhausted the retry policy.
    Conflict {
        /// Most recent state observed after the final failed CAS.
        current: u64,
        /// Number of attempts consumed before giving up.
        attempts: u32,
    },
}

impl<E> FastCasError<E> {
    /// The state captured by the failure, whichever its kind.
    pub open spec fn observed(self) -> u64 {
        match self {
            FastCasError::Abort { current, .. } => current,
            FastCasError::Conflict { current, .. } => current,
        }
    }

    /// The attempts consumed by the failure, whichever its kind.
    pub open spec fn attempts_used(self) -> u32 {
        match self {
            FastCasError::Abort { attempts, .. } => attempts,
            FastCasError::Conflict { attempts, .. } => attempts,
        }
    }

    /// The business error carried by an abort, if any.
    pub open spec fn business_error(self) -> Option<E> {
        match self {
            FastCasError::Abort { error, .. } => Some(error),
            FastCasError::Conflict { .. } => None,
        }
    }

    /// Returns the current state captured by the terminal failure.
    pub fn current(&self) -> (r: u64)
        ensures
            r == self.observed(),
    {
        match self {
            FastCasError::Abort { current, .. } => *current,
            FastCasError::Conflict { current, .. } => *current,
        }
    }

    /// Returns the number of attempts consumed before failure.
    pub fn attempts(&self) -> (r: u32)
        ensures
            r == self.attempts_used(),
    {
        match self {
            FastCasError::Abort { attempts, .. } => *attempts,
            FastCasError::Conflict { attempts, .. } => *attempts,
        }
    }

    /// Tests whether this failure came from an abort decision.
    pub fn is_abort(&self) -> (r: bool)
        ensures
            r == (*self is Abort),
    {
        matches!(self, FastCasError::Abort { .. })
    }

    /// Tests whether this failure came from exhausted CAS conflicts.
    pub fn is_conflict(&self) -> (r: bool)
        ensures
            r == (*self is Conflict),
    {
        matches!(self, FastCasError::Conflict { .. })
    }

    /// Returns the business error for abort failures, or `None` for conflict
    /// failures.
    pub fn error(&self) -> (r: Option<&E>)
        ensures
            r matches Some(e) ==> self.business_error() == Some(*e),
            r is None <==> self.business_error() is None,
    {
        match self {
            FastCasError::Abort { error, .. } => Some(error),
            FastCasError::Conflict { .. } => None,
        }
    }

    /// Consumes this failure and returns the business error when present.
    pub fn into_error(self) -> (r: Option<E>)
        ensures
            r == self.business_error(),
    {
        match self {
            FastCasError::Abort { error, .. } => Some(error),
            FastCasError::Conflict { .. } => None,
        }
    }
}

/// A failure is exactly one of an abort and a conflict, and it carries a
/// business error exactly when it is an abort.
pub proof fn lemma_error_kinds_partition<E>(e: FastCasError<E>)
    ensures
        (e is Abort) != (e is Conflict),
        (e is Abort) <==> (e.business_error() is Some),
{
}

} // verus!
