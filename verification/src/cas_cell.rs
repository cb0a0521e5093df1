//! An atomic `u64` cell with compare-and-swap operations.

use std::sync::atomic::AtomicU64;
use std::sync::atomic::Ordering;
use vstd::prelude::*;

verus! {

/// Stores `next` in `word` when it holds `expected`, through the strong
/// `AtomicU64::compare_exchange` with acquire-release ordering on success and
/// acquire ordering on failure.
///
/// Trusted: std documents that on success the returned previous value equals
/// `expected`, and that the strong form (unlike `compare_exchange_weak`)
/// fails only when the stored value differs from `expected`, returning that
/// stored value. What the word holds is shared with other threads and is not
/// stated.
#[verifier::external_body]
fn compare_exchange_word(word: &AtomicU64, expected: u64, next: u64) -> (r: Result<u64, u64>)
    ensures
        r matches Ok(previous) ==> previous == expected,
        r matches Err(actual) ==> actual != expected,
{
    word.compare_exchange(expected, next, Ordering::AcqRel, Ordering::Acquire)
}

/// An atomic `u64` cell with compare-and-swap operations.
///
/// The cell is shared through `&self`: other threads may change the word at
/// any moment, so a value read from it is an observation, not a fact that
/// lasts. Comparisons use only the current value and do not detect ABA
/// changes; callers that must detect an intermediate change should encode a
/// generation counter in the state word.
pub struct CasCell {
    /// Atomic state word owned by this cell.
    state: AtomicU64,
    /// The argument the cell was created from (a record, not the word).
    initial: Ghost<u64>,
}

/// Outcome of one attempt of a functional update (see [`CasCell::try_commit`]).
#[derive(Debug, Clone, Copy, PartialEq, Eq)]
pub enum CasCellStep<R, E> {
    /// The proposed state was installed; the business output is returned.
    Committed(R),
    /// The operation rejected the observed state; nothing was written.
    Rejected(E),
    /// Another writer changed the word first; this is the value it held.
    Retry(u64),
}

/// How an attempt of a functional update settles, given what the operation
/// proposed and what the compare-and-swap returned (see [`CasCell::settle`]).
pub open spec fn settled<R, E>(proposal: Result<(u64, R), E>, written: Result<(), u64>) -> CasCellStep<R, E> {
    match proposal {
        Err(error) => CasCellStep::Rejected(error),
        Ok((next, output)) => match written {
            Ok(()) => CasCellStep::Committed(output),
            Err(actual) => CasCellStep::Retry(actual),
        },
    }
}

impl CasCell {
    /// The argument `new` was given. It records that argument only: it says
    /// nothing of what the atomic word holds now, which writers, this
    /// thread's or others', may have replaced since.
    pub closed spec fn created_with(&self) -> u64 {
        self.initial@
    }

    /// Creates a cell initialized with `value`.
    pub fn new(value: u64) -> (r: Self)
        ensures
            r.created_with() == value,
    {
        CasCell { state: AtomicU64::new(value), initial: Ghost(value) }
    }

    /// Loads the current state word with acquire ordering.
    pub fn load(&self) -> u64 {
        self.state.load(Ordering::Acquire)
    }

    /// Stores a state word with release ordering.
    pub fn store(&self, value: u64) {
        self.state.store(value, Ordering::Release)
    }

    /// Atomically replaces the state word and returns its previous value.
    pub fn swap(&self, value: u64) -> u64 {
        self.state.swap(value, Ordering::AcqRel)
    }

    /// Replaces `expected` with `next` when the current value matches.
    ///
    /// Returns `Ok(())` when the value was replaced, or the observed current
    /// value, which differs from `expected`, when it was not.
    pub fn compare_set(&self, expected: u64, next: u64) -> (r: Result<(), u64>)
        ensures
            r matches Err(actual) ==> actual != expected,
    {
        match compare_exchange_word(&self.state, expected, next) {
            Ok(_) => Ok(()),
            Err(actual) => Err(actual),
        }
    }

    /// Settles one attempt of a functional update from what its parts
    /// returned: `proposal` is what the update operation returned for the
    /// observed state `current`, and `written` is what the compare-and-swap of
    /// `current` to the proposed state returned (it is ignored when the
    /// operation rejected the state, since nothing is written then). A
    /// rejection stops the update, a won compare-and-swap commits the output,
    /// and a lost one hands on the value it found in the word.
    pub fn settle<R, E>(proposal: Result<(u64, R), E>, written: Result<(), u64>) -> (r: CasCellStep<R, E>)
        ensures
            r == settled(proposal, written),
    {
        match proposal {
            Err(error) => CasCellStep::Rejected(error),
            Ok((next, output)) => match written {
                Ok(()) => CasCellStep::Committed(output),
                Err(actual) => CasCellStep::Retry(actual),
            },
        }
    }

    /// Runs one attempt of a functional update.
    ///
    /// `proposal` is what the update operation returned for the observed state
    /// `current`. A business error stops the update without writing. A
    /// proposed `(next, output)` is installed with one compare-and-swap of
    /// `current` to `next`, and the attempt is settled by [`Self::settle`]:
    /// on success the output is committed, otherwise the value that another
    /// writer left in the word, which differs from `current`, is returned for
    /// the next attempt.
    pub fn try_commit<R, E>(&self, current: u64, proposal: Result<(u64, R), E>) -> (r: CasCellStep<R, E>)
        ensures
            exists|written: Result<(), u64>|
                (written matches Err(actual) ==> actual != current) && r == #[trigger] settled(
                    proposal,
                    written,
                ),
            proposal matches Err(error) ==> r == CasCellStep::<R, E>::Rejected(error),
            proposal matches Ok((next, output)) ==> (r == CasCellStep::<R, E>::Committed(output)
                || (r matches CasCellStep::Retry(actual) && actual != current)),
    {
        let written = match &proposal {
            Err(_) => Ok(()),
            Ok((next, _)) => self.compare_set(current, *next),
        };
        CasCell::settle(proposal, written)
    }
}

impl Default for CasCell {
    /// Creates a cell holding zero.
    fn default() -> (r: Self)
        ensures
            r.created_with() == 0,
    {
        CasCell::new(0)
    }
}

} // verus!
