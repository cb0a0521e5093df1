//! Policy-driven compare-and-swap executor for compact `u64` state codes.

use crate::cas_cell::CasCell;
use crate::fast_cas_decision::FastCasDecision;
use crate::fast_cas_error::FastCasError;
use crate::fast_cas_policy::FastCasPolicy;
use crate::fast_cas_success::FastCasSuccess;
use std::convert::Infallible;
use vstd::prelude::*;

verus! {

/// Policy-driven compare-and-swap executor for `u64` state codes.
///
/// The executor retries when a compare-and-swap fails because another writer
/// changed the value between the read and the write (a conflict). Business
/// errors returned as [`FastCasDecision::Abort`] do not trigger retries. The
/// operation passed to [`Self::execute`] / [`Self::update_by`] may run again
/// after conflicts. [`Self::compare_update`] and [`Self::compare_update_with`]
/// perform a single attempt and ignore the policy.
#[derive(Debug, Clone, Copy, PartialEq, Eq)]
pub struct FastCas {
    /// Retry policy used for CAS conflicts.
    policy: FastCasPolicy,
}

/// What the executor does after one attempt.
#[derive(Debug, PartialEq, Eq)]
pub enum FastCasAttempt<R, E> {
    /// The operation is over, with this result.
    Done(Result<FastCasSuccess<R>, FastCasError<E>>),
    /// The compare-and-swap lost a race and the budget allows another attempt.
    Retry,
}

/// What attempt number `attempts` concludes, under an attempt budget of
/// `budget`, when the operation decided `decision` for the observed state
/// `current` and, for an update, the compare-and-swap returned `written`.
pub open spec fn concludes<R, E>(
    budget: u32,
    current: u64,
    decision: FastCasDecision<R, E>,
    written: Result<(), u64>,
    attempts: u32,
    r: FastCasAttempt<R, E>,
) -> bool {
    match decision {
        FastCasDecision::Update { next, output } => match written {
            Ok(()) => r matches FastCasAttempt::Done(Ok(s)) && s.reports(
                current,
                next,
                output,
                attempts,
                true,
            ),
            Err(actual) => if attempts >= budget {
                r == FastCasAttempt::<R, E>::Done(
                    Err(FastCasError::Conflict { current: actual, attempts }),
                )
            } else {
                r is Retry
            },
        },
        FastCasDecision::Finish { output } => r matches FastCasAttempt::Done(Ok(s)) && s.reports(
            current,
            current,
            output,
            attempts,
            false,
        ),
        FastCasDecision::Abort { error } => r == FastCasAttempt::<R, E>::Done(
            Err(FastCasError::Abort { current, error, attempts }),
        ),
    }
}

/// The decisions a decision-returning operation can make: `decision` for the
/// observed state `observed`.
pub open spec fn decides_by<R, E, F: FnMut(u64) -> FastCasDecision<R, E>>(operation: F) -> spec_fn(
    u64,
    FastCasDecision<R, E>,
) -> bool {
    |observed: u64, decision: FastCasDecision<R, E>|
        call_ensures(operation, (observed,), decision)
}

/// The decision that an update-or-error proposal stands for: `Ok((next,
/// output))` is an update to `next`, `Err(error)` is an abort.
pub open spec fn decision_of<R, E>(proposal: Result<(u64, R), E>) -> FastCasDecision<R, E> {
    match proposal {
        Ok((next, output)) => FastCasDecision::Update { next, output },
        Err(error) => FastCasDecision::Abort { error },
    }
}

/// Whether an update-or-error operation makes `decision` for `observed`: it
/// proposes, for that state, something that stands for that decision.
pub open spec fn proposes<R, E, F: FnMut(u64) -> Result<(u64, R), E>>(
    operation: F,
    observed: u64,
    decision: FastCasDecision<R, E>,
) -> bool {
    exists|proposal: Result<(u64, R), E>|
        #[trigger] call_ensures(operation, (observed,), proposal) && decision == decision_of(
            proposal,
        )
}

/// The decisions an update-or-error operation makes, read through
/// [`decision_of`].
pub open spec fn proposes_by<R, E, F: FnMut(u64) -> Result<(u64, R), E>>(operation: F) -> spec_fn(
    u64,
    FastCasDecision<R, E>,
) -> bool {
    |observed: u64, decision: FastCasDecision<R, E>| proposes(operation, observed, decision)
}

/// One lost attempt, `(observed, found)`: for the observed state the operation
/// decided an update, and its compare-and-swap found the other value `found`
/// in the word.
pub open spec fn lost_update<R, E>(
    decides: spec_fn(u64, FastCasDecision<R, E>) -> bool,
    attempt: (u64, u64),
) -> bool {
    &&& attempt.0 != attempt.1
    &&& exists|next: u64, output: R| #[trigger]
        decides(attempt.0, FastCasDecision::<R, E>::Update { next, output })
}

/// Every attempt in `trail` is a lost attempt.
pub open spec fn all_lost<R, E>(
    decides: spec_fn(u64, FastCasDecision<R, E>) -> bool,
    trail: Seq<(u64, u64)>,
) -> bool {
    forall|i: int| 0 <= i < trail.len() ==> #[trigger] lost_update(decides, trail[i])
}

/// What the executor may return, under an attempt budget of `budget`, for an
/// operation whose decisions are `decides`.
///
/// Every attempt before the last decided an update and lost its
/// compare-and-swap to another value: there is a trail of such lost attempts,
/// one per attempt before the last. The last attempt then either succeeded
/// with a decision the operation made for the reported state (an update that
/// installed the reported current state, or a finish that left the state as
/// observed), aborted with the operation's error for the reported state, or,
/// only once the budget is spent, was itself a lost update whose
/// compare-and-swap found the reported state.
pub open spec fn concluded_run<R, E>(
    decides: spec_fn(u64, FastCasDecision<R, E>) -> bool,
    budget: u32,
    r: Result<FastCasSuccess<R>, FastCasError<E>>,
) -> bool {
    match r {
        Ok(s) => {
            &&& s.well_formed()
            &&& s.spec_attempts() <= budget
            &&& if s.spec_is_updated() {
                decides(
                    s.spec_previous(),
                    FastCasDecision::Update { next: s.spec_current(), output: s.spec_output() },
                )
            } else {
                decides(s.spec_previous(), FastCasDecision::Finish { output: s.spec_output() })
            }
            &&& exists|trail: Seq<(u64, u64)>|
                trail.len() == s.spec_attempts() - 1 && #[trigger] all_lost(decides, trail)
        },
        Err(FastCasError::Abort { current, error, attempts }) => {
            &&& 1 <= attempts <= budget
            &&& decides(current, FastCasDecision::Abort { error })
            &&& exists|trail: Seq<(u64, u64)>|
                trail.len() == attempts - 1 && #[trigger] all_lost(decides, trail)
        },
        Err(FastCasError::Conflict { current, attempts }) => {
            &&& 1 <= attempts == budget
            &&& exists|trail: Seq<(u64, u64)>|
                trail.len() == attempts && #[trigger] all_lost(decides, trail) && trail.last().1
                    == current
        },
    }
}

/// What `execute` may return for `operation` under an attempt budget of
/// `budget`: [`concluded_run`] over the decisions the operation makes.
pub open spec fn executed<R, E, F: FnMut(u64) -> FastCasDecision<R, E>>(
    operation: F,
    budget: u32,
    r: Result<FastCasSuccess<R>, FastCasError<E>>,
) -> bool {
    concluded_run(decides_by(operation), budget, r)
}

/// What `update_by` may return for `operation` under an attempt budget of
/// `budget`: what `execute` may return for the decisions that the operation's
/// proposals stand for, and never a finish.
pub open spec fn updated_by<R, E, F: FnMut(u64) -> Result<(u64, R), E>>(
    operation: F,
    budget: u32,
    r: Result<FastCasSuccess<R>, FastCasError<E>>,
) -> bool {
    &&& concluded_run(proposes_by(operation), budget, r)
    &&& r matches Ok(s) ==> s.spec_is_updated()
}

/// What a single compare-update of `expected` to `next` may return, with
/// `made` telling which outputs the output factory can make: an update that
/// observed `expected` and installed `next` in one attempt, or a conflict in
/// one attempt that observed another value.
pub open spec fn compared<R>(
    expected: u64,
    next: u64,
    made: spec_fn(R) -> bool,
    r: Result<FastCasSuccess<R>, FastCasError<Infallible>>,
) -> bool {
    match r {
        Ok(s) => {
            &&& s.well_formed()
            &&& s.spec_is_updated()
            &&& s.spec_previous() == expected
            &&& s.spec_current() == next
            &&& s.spec_attempts() == 1
            &&& made(s.spec_output())
        },
        Err(e) => e matches FastCasError::Conflict { current, attempts } && attempts == 1 && current
            != expected,
    }
}

/// The decision that an update-or-error result stands for.
fn decision_from<R, E>(result: Result<(u64, R), E>) -> (r: FastCasDecision<R, E>)
    ensures
        r == decision_of(result),
{
    match result {
        Ok((next, output)) => FastCasDecision::Update { next, output },
        Err(error) => FastCasDecision::Abort { error },
    }
}

/// A trail of lost attempts stays one when another lost attempt is added.
proof fn lemma_extend_trail<R, E>(
    decides: spec_fn(u64, FastCasDecision<R, E>) -> bool,
    trail: Seq<(u64, u64)>,
    attempt: (u64, u64),
)
    requires
        all_lost(decides, trail),
        lost_update(decides, attempt),
    ensures
        all_lost(decides, trail.push(attempt)),
{
    assert forall|i: int| 0 <= i < trail.push(attempt).len() implies #[trigger] lost_update(
        decides,
        trail.push(attempt)[i],
    ) by {
        if i < trail.len() {
            assert(trail.push(attempt)[i] == trail[i]);
        }
    }
}

impl FastCas {
    /// The retry policy this executor uses.
    pub closed spec fn spec_policy(&self) -> FastCasPolicy {
        self.policy
    }

    /// Creates an executor that performs one CAS attempt.
    pub fn once() -> (r: Self)
        ensures
            r.spec_policy() == FastCasPolicy::Once,
    {
        FastCas { policy: FastCasPolicy::once() }
    }

    /// Creates an executor that retries CAS conflicts immediately; a zero
    /// budget becomes one attempt.
    pub fn spin(max_attempts: u32) -> (r: Self)
        ensures
            r.spec_policy() == (FastCasPolicy::Spin {
                max_attempts: crate::fast_cas_policy::normalized_attempts(max_attempts),
            }),
    {
        FastCas { policy: FastCasPolicy::spin(max_attempts) }
    }

    /// Creates an executor that spins first and then yields between retries.
    pub fn spin_yield(spin_attempts: u32, max_attempts: u32) -> (r: Self)
        ensures
            r.spec_policy() == (FastCasPolicy::SpinYield {
                spin_attempts: if spin_attempts < crate::fast_cas_policy::normalized_attempts(
                    max_attempts,
                ) {
                    spin_attempts
                } else {
                    crate::fast_cas_policy::normalized_attempts(max_attempts)
                },
                max_attempts: crate::fast_cas_policy::normalized_attempts(max_attempts),
            }),
    {
        FastCas { policy: FastCasPolicy::spin_yield(spin_attempts, max_attempts) }
    }

    /// Creates an executor from an explicit policy.
    pub fn with_policy(policy: FastCasPolicy) -> (r: Self)
        ensures
            r.spec_policy() == policy,
    {
        FastCas { policy }
    }

    /// Returns the retry policy used by this executor.
    pub fn policy(&self) -> (r: FastCasPolicy)
        ensures
            r == self.spec_policy(),
    {
        self.policy
    }

    /// Concludes one attempt: `decision` is what the operation decided for the
    /// observed state `current`, and `written` is what the compare-and-swap of
    /// `current` to the decided state returned (it is ignored unless the
    /// decision is an update). A lost compare-and-swap is retried while the
    /// attempt numbered `attempts` is within the policy's budget.
    pub fn conclude<R, E>(
        &self,
        current: u64,
        decision: FastCasDecision<R, E>,
        written: Result<(), u64>,
        attempts: u32,
    ) -> (r: FastCasAttempt<R, E>)
        requires
            attempts >= 1,
        ensures
            concludes(self.spec_policy().attempt_budget(), current, decision, written, attempts, r),
    {
        match decision {
            FastCasDecision::Update { next, output } => match written {
                Ok(()) => FastCasAttempt::Done(
                    Ok(FastCasSuccess::updated(current, next, output, attempts)),
                ),
                Err(actual) => {
                    if attempts >= self.policy.max_attempts() {
                        FastCasAttempt::Done(
                            Err(FastCasError::Conflict { current: actual, attempts }),
                        )
                    } else {
                        FastCasAttempt::Retry
                    }
                },
            },
            FastCasDecision::Finish { output } => FastCasAttempt::Done(
                Ok(FastCasSuccess::finished(current, output, attempts)),
            ),
            FastCasDecision::Abort { error } => FastCasAttempt::Done(
                Err(FastCasError::Abort { current, error, attempts }),
            ),
        }
    }

    /// Executes a CAS operation described by a decision-returning closure.
    ///
    /// The operation receives the current state code from
    /// [`CasCell::load`]. It may run again when another thread wins the CAS
    /// between the decision and the write; only an update decision writes. A
    /// finish decision succeeds without writing, and an abort decision fails
    /// at once with the business error. Before each attempt after the first,
    /// `pause` is called with the attempt's one-based number and with whether
    /// the policy asks to yield the thread before it (otherwise a spin hint is
    /// in order); `pause` need accept only those arguments.
    pub fn execute<R, E, F, P>(&self, state: &CasCell, mut operation: F, mut pause: P) -> (r: Result<
        FastCasSuccess<R>,
        FastCasError<E>,
    >) where F: FnMut(u64) -> FastCasDecision<R, E>, P: FnMut(u32, bool)
        requires
            forall|observed: u64| call_requires(operation, (observed,)),
            forall|next_attempt: u32, yield_first: bool|
                2 <= next_attempt <= self.spec_policy().attempt_budget() && yield_first
                    == self.spec_policy().yields_before(next_attempt) ==> #[trigger] call_requires(
                    pause,
                    (next_attempt, yield_first),
                ),
        ensures
            executed(operation, self.spec_policy().attempt_budget(), r),
    {
        let ghost op = operation;
        let ghost decides = decides_by(op);
        let ghost mut trail: Seq<(u64, u64)> = Seq::empty();
        let max_attempts = self.policy.max_attempts();
        let mut attempts: u32 = 1;
        #[verifier::loop_isolation(false)]
        loop
            invariant
                operation == op,
                forall|observed: u64| call_requires(operation, (observed,)),
                max_attempts == self.spec_policy().attempt_budget(),
                1 <= attempts <= max_attempts,
                forall|next_attempt: u32, yield_first: bool|
                    2 <= next_attempt <= max_attempts && yield_first
                        == self.spec_policy().yields_before(next_attempt) ==> #[trigger] call_requires(
                        pause,
                        (next_attempt, yield_first),
                    ),
                trail.len() == attempts - 1,
                all_lost(decides, trail),
            decreases max_attempts - attempts,
        {
            let current = state.load();
            let decision = operation(current);
            let ghost decided = decision;
            let written = match &decision {
                FastCasDecision::Update { next, .. } => state.compare_set(current, *next),
                _ => Ok(()),
            };
            let ghost found = match written {
                Ok(()) => current,
                Err(actual) => actual,
            };
            proof {
                assert(decides(current, decided));
                if let FastCasDecision::Update { next, output } = decided {
                    if written is Err {
                        assert(found != current);
                        let attempt = (current, found);
                        assert(decides(attempt.0, FastCasDecision::<R, E>::Update { next, output }));
                        assert(lost_update(decides, attempt));
                        lemma_extend_trail(decides, trail, (current, found));
                    }
                }
            }
            let step = self.conclude(current, decision, written, attempts);
            match step {
                FastCasAttempt::Done(result) => {
                    proof {
                        if result is Err && decided is Update {
                            assert(all_lost(decides, trail.push((current, found))));
                            assert(trail.push((current, found)).last().1 == found);
                        } else {
                            assert(all_lost(decides, trail));
                        }
                    }
                    return result;
                },
                FastCasAttempt::Retry => {},
            }
            proof {
                trail = trail.push((current, found));
            }
            attempts = attempts + 1;
            pause(attempts, self.policy.should_yield_before(attempts));
        }
    }

    /// Executes a compact update operation.
    ///
    /// `Ok((next, output))` stands for an update decision: it attempts to
    /// install `next` and returns `output` after the CAS succeeds.
    /// `Err(error)` stands for an abort decision and performs no write. The
    /// same retry rules and `pause` calls as [`Self::execute`] apply: the
    /// result is one `execute` may give for the decisions that the proposals
    /// stand for (see [`lemma_update_by_runs_execute`]).
    pub fn update_by<R, E, F, P>(&self, state: &CasCell, mut operation: F, mut pause: P) -> (r: Result<
        FastCasSuccess<R>,
        FastCasError<E>,
    >) where F: FnMut(u64) -> Result<(u64, R), E>, P: FnMut(u32, bool)
        requires
            forall|observed: u64| call_requires(operation, (observed,)),
            forall|next_attempt: u32, yield_first: bool|
                2 <= next_attempt <= self.spec_policy().attempt_budget() && yield_first
                    == self.spec_policy().yields_before(next_attempt) ==> #[trigger] call_requires(
                    pause,
                    (next_attempt, yield_first),
                ),
        ensures
            updated_by(operation, self.spec_policy().attempt_budget(), r),
    {
        let ghost op = operation;
        let ghost decides = proposes_by(op);
        let ghost mut trail: Seq<(u64, u64)> = Seq::empty();
        let max_attempts = self.policy.max_attempts();
        let mut attempts: u32 = 1;
        #[verifier::loop_isolation(false)]
        loop
            invariant
                operation == op,
                forall|observed: u64| call_requires(operation, (observed,)),
                max_attempts == self.spec_policy().attempt_budget(),
                1 <= attempts <= max_attempts,
                forall|next_attempt: u32, yield_first: bool|
                    2 <= next_attempt <= max_attempts && yield_first
                        == self.spec_policy().yields_before(next_attempt) ==> #[trigger] call_requires(
                        pause,
                        (next_attempt, yield_first),
                    ),
                trail.len() == attempts - 1,
                all_lost(decides, trail),
            decreases max_attempts - attempts,
        {
            let current = state.load();
            let proposal = operation(current);
            let ghost proposed = proposal;
            let decision = decision_from(proposal);
            let ghost decided = decision;
            let written = match &decision {
                FastCasDecision::Update { next, .. } => state.compare_set(current, *next),
                _ => Ok(()),
            };
            let ghost found = match written {
                Ok(()) => current,
                Err(actual) => actual,
            };
            proof {
                assert(call_ensures(op, (current,), proposed));
                assert(proposes(op, current, decided));
                assert(decides(current, decided));
                if let FastCasDecision::Update { next, output } = decided {
                    if written is Err {
                        assert(found != current);
                        let attempt = (current, found);
                        assert(decides(attempt.0, FastCasDecision::<R, E>::Update { next, output }));
                        assert(lost_update(decides, attempt));
                        lemma_extend_trail(decides, trail, (current, found));
                    }
                }
            }
            let step = self.conclude(current, decision, written, attempts);
            match step {
                FastCasAttempt::Done(result) => {
                    proof {
                        if result is Err && decided is Update {
                            assert(all_lost(decides, trail.push((current, found))));
                            assert(trail.push((current, found)).last().1 == found);
                        } else {
                            assert(all_lost(decides, trail));
                        }
                    }
                    return result;
                },
                FastCasAttempt::Retry => {},
            }
            proof {
                trail = trail.push((current, found));
            }
            attempts = attempts + 1;
            pause(attempts, self.policy.should_yield_before(attempts));
        }
    }

    /// Attempts one fixed `expected`-to-`next` transition with unit output.
    ///
    /// Performs exactly one [`CasCell::compare_set`] call; the policy is not
    /// used. If the state is not `expected`, or the CAS loses the race, a
    /// conflict with the observed state is returned.
    pub fn compare_update(&self, state: &CasCell, expected: u64, next: u64) -> (r: Result<
        FastCasSuccess<()>,
        FastCasError<Infallible>,
    >)
        ensures
            compared(expected, next, |o: ()| true, r),
    {
        self.compare_update_with(state, expected, next, |previous: u64, installed: u64| ())
    }

    /// Attempts one fixed `expected`-to-`next` transition and computes the
    /// output after success.
    ///
    /// Same single-CAS semantics as [`Self::compare_update`]. The `output`
    /// factory runs only after a successful CAS and receives
    /// `(expected, next)`.
    pub fn compare_update_with<R, F>(
        &self,
        state: &CasCell,
        expected: u64,
        next: u64,
        output: F,
    ) -> (r: Result<FastCasSuccess<R>, FastCasError<Infallible>>) where F: Fn(u64, u64) -> R
        requires
            call_requires(output, (expected, next)),
        ensures
            compared(expected, next, |o: R| call_ensures(output, (expected, next), o), r),
    {
        let written = state.compare_set(expected, next);
        FastCas::settle_compare(expected, next, written, output)
    }

    /// Settles a single compare-update of `expected` to `next` from what its
    /// compare-and-swap returned: on success, an update in one attempt whose
    /// output the `output` factory makes from `(expected, next)`; on failure, a
    /// conflict in one attempt carrying the value the compare-and-swap found.
    /// The factory needs to be callable only when the write succeeded, and it
    /// is called only then.
    pub fn settle_compare<R, F>(
        expected: u64,
        next: u64,
        written: Result<(), u64>,
        output: F,
    ) -> (r: Result<FastCasSuccess<R>, FastCasError<Infallible>>) where F: Fn(u64, u64) -> R
        requires
            written is Ok ==> call_requires(output, (expected, next)),
        ensures
            written matches Err(actual) ==> r == Err::<FastCasSuccess<R>, FastCasError<Infallible>>(
                FastCasError::Conflict { current: actual, attempts: 1 },
            ),
            written is Ok ==> (r matches Ok(s) && s.reports(expected, next, s.spec_output(), 1, true)
                && call_ensures(output, (expected, next), s.spec_output())),
    {
        let attempts: u32 = 1;
        match written {
            Ok(()) => Ok(FastCasSuccess::updated(expected, next, output(expected, next), attempts)),
            Err(current) => Err(FastCasError::Conflict { current, attempts }),
        }
    }
}

impl Default for FastCas {
    /// Creates the default executor: a spin policy of 16 attempts, a small
    /// bound suited to low-latency contention without yielding.
    fn default() -> (r: Self)
        ensures
            r.spec_policy() == (FastCasPolicy::Spin { max_attempts: 16 }),
    {
        FastCas::spin(16)
    }
}

/// Retries and conflicts come only from lost compare-and-swap writes: an
/// operation that never decides to update never makes `execute` end in a
/// conflict.
pub proof fn lemma_conflict_requires_update<R, E, F: FnMut(u64) -> FastCasDecision<R, E>>(
    operation: F,
    budget: u32,
    r: Result<FastCasSuccess<R>, FastCasError<E>>,
)
    requires
        executed(operation, budget, r),
        forall|observed: u64, decision: FastCasDecision<R, E>| #[trigger]
            call_ensures(operation, (observed,), decision) ==> !(decision is Update),
    ensures
        !(r matches Err(FastCasError::Conflict { .. })),
{
    if let Err(FastCasError::Conflict { current, attempts }) = r {
        let trail = choose|trail: Seq<(u64, u64)>|
            trail.len() == attempts && #[trigger] all_lost(decides_by(operation), trail)
                && trail.last().1 == current;
        let last = trail[attempts - 1];
        assert(lost_update(decides_by(operation), last));
        let (next, output) = choose|next: u64, output: R| #[trigger]
            decides_by(operation)(last.0, FastCasDecision::<R, E>::Update { next, output });
        assert(call_ensures(operation, (last.0,), FastCasDecision::<R, E>::Update { next, output }));
    }
}

/// `update_by` runs `execute` on the decisions its operation's proposals stand
/// for: whatever `update_by` may return for `operation` is what `execute` may
/// return for any operation `mapped` that decides, for each observed state,
/// exactly the decisions those proposals stand for. Besides, `update_by` never
/// finishes, and its aborts carry an error the operation returned.
pub proof fn lemma_update_by_runs_execute<
    R,
    E,
    F: FnMut(u64) -> Result<(u64, R), E>,
    G: FnMut(u64) -> FastCasDecision<R, E>,
>(operation: F, mapped: G, budget: u32, r: Result<FastCasSuccess<R>, FastCasError<E>>)
    requires
        updated_by(operation, budget, r),
        forall|observed: u64, decision: FastCasDecision<R, E>| #[trigger]
            call_ensures(mapped, (observed,), decision) <==> proposes(operation, observed, decision),
    ensures
        executed(mapped, budget, r),
        r matches Ok(s) ==> s.spec_is_updated(),
        r matches Err(FastCasError::Abort { current, error, .. }) ==> call_ensures(
            operation,
            (current,),
            Err::<(u64, R), E>(error),
        ),
{
    assert(decides_by(mapped) =~= proposes_by(operation));
    if let Err(FastCasError::Abort { current, error, attempts }) = r {
        assert(proposes(operation, current, FastCasDecision::<R, E>::Abort { error }));
        let proposal = choose|proposal: Result<(u64, R), E>| #[trigger]
            call_ensures(operation, (current,), proposal) && FastCasDecision::<R, E>::Abort {
                error,
            } == decision_of(proposal);
        assert(proposal == Err::<(u64, R), E>(error));
    }
}

/// Under a budget of one attempt (the policy of `FastCas::once`), every
/// outcome of `execute` counts exactly one attempt.
pub proof fn lemma_single_attempt_budget<R, E, F: FnMut(u64) -> FastCasDecision<R, E>>(
    operation: F,
    r: Result<FastCasSuccess<R>, FastCasError<E>>,
)
    requires
        executed(operation, FastCasPolicy::Once.attempt_budget(), r),
    ensures
        r matches Ok(s) ==> s.spec_attempts() == 1,
        r matches Err(e) ==> e.attempts_used() == 1,
{
    if let Ok(s) = r {
        crate::fast_cas_success::lemma_finished_keeps_state(s);
    }
}

} // verus!
