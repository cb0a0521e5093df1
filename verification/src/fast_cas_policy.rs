//! Retry policy for fast compare-and-swap operations.

use vstd::prelude::*;

verus! {

/// Retry policy used by `FastCas` when compare-and-swap loses a race.
#[derive(Debug, Clone, Copy, PartialEq, Eq)]
pub enum FastCasPolicy {
    /// Try the operation once and return conflict on the first failed CAS.
    Once,
    /// Retry immediately until CAS succeeds, the operation aborts, or the
    /// attempt budget is exhausted.
    Spin {
        /// Maximum number of CAS attempts, including the first attempt.
        max_attempts: u32,
    },
    /// Spin for a short prefix, then yield between retries until the attempt
    /// budget is exhausted.
    SpinYield {
        /// Number of attempts to run without yielding.
        spin_attempts: u32,
        /// Maximum number of CAS attempts, including the first attempt.
        max_attempts: u32,
    },
}

/// An attempt budget with zero read as a single attempt.
pub open spec fn normalized_attempts(attempts: u32) -> u32 {
    if attempts == 0 {
        1
    } else {
        attempts
    }
}

/// Normalizes an attempt budget so every policy can execute at least once.
fn normalize_attempts(attempts: u32) -> (r: u32)
    ensures
        r == normalized_attempts(attempts),
{
    if attempts == 0 {
        1
    } else {
        attempts
    }
}

impl FastCasPolicy {
    /// The number of attempts this policy allows.
    pub open spec fn attempt_budget(self) -> u32 {
        match self {
            FastCasPolicy::Once => 1,
            FastCasPolicy::Spin { max_attempts } => normalized_attempts(max_attempts),
            FastCasPolicy::SpinYield { max_attempts, .. } => normalized_attempts(max_attempts),
        }
    }

    /// Whether this policy yields before the attempt numbered `next_attempt`.
    pub open spec fn yields_before(self, next_attempt: u32) -> bool {
        match self {
            FastCasPolicy::SpinYield { spin_attempts, .. } => next_attempt > spin_attempts,
            _ => false,
        }
    }

    /// Creates a policy that performs one CAS attempt.
    pub fn once() -> (r: Self)
        ensures
            r == FastCasPolicy::Once,
    {
        FastCasPolicy::Once
    }

    /// Creates an immediate-spin retry policy; a zero budget becomes one
    /// attempt.
    pub fn spin(max_attempts: u32) -> (r: Self)
        ensures
            r == (FastCasPolicy::Spin { max_attempts: normalized_attempts(max_attempts) }),
    {
        FastCasPolicy::Spin { max_attempts: normalize_attempts(max_attempts) }
    }

    /// Creates a spin-then-yield retry policy. A zero budget becomes one
    /// attempt, and the spin prefix is capped at the budget.
    pub fn spin_yield(spin_attempts: u32, max_attempts: u32) -> (r: Self)
        ensures
            r == (FastCasPolicy::SpinYield {
                spin_attempts: if spin_attempts < normalized_attempts(max_attempts) {
                    spin_attempts
                } else {
                    normalized_attempts(max_attempts)
                },
                max_attempts: normalized_attempts(max_attempts),
            }),
    {
        let max_attempts = normalize_attempts(max_attempts);
        let spin_attempts = if spin_attempts < max_attempts {
            spin_attempts
        } else {
            max_attempts
        };
        FastCasPolicy::SpinYield { spin_attempts, max_attempts }
    }

    /// Returns the maximum number of attempts allowed by this policy, which is
    /// never zero.
    pub fn max_attempts(self) -> (r: u32)
        ensures
            r == self.attempt_budget(),
            r >= 1,
    {
        match self {
            FastCasPolicy::Once => 1,
            FastCasPolicy::Spin { max_attempts } => normalize_attempts(max_attempts),
            FastCasPolicy::SpinYield { max_attempts, .. } => normalize_attempts(max_attempts),
        }
    }

    /// Returns whether the caller should yield before the attempt numbered
    /// `next_attempt` (one-based).
    pub fn should_yield_before(self, next_attempt: u32) -> (r: bool)
        ensures
            r == self.yields_before(next_attempt),
    {
        match self {
            FastCasPolicy::SpinYield { spin_attempts, .. } => next_attempt > spin_attempts,
            FastCasPolicy::Once => false,
            FastCasPolicy::Spin { .. } => false,
        }
    }
}

/// Once a policy yields before some attempt, it yields before every later
/// attempt: spinning only ever comes first.
pub proof fn lemma_yield_is_monotone(policy: FastCasPolicy, earlier: u32, later: u32)
    requires
        earlier <= later,
        policy.yields_before(earlier),
    ensures
        policy.yields_before(later),
{
}

/// Every policy allows at least one attempt, and a policy never yields before
/// an attempt that lies within its spin prefix.
pub proof fn lemma_budget_and_spin_prefix(policy: FastCasPolicy, next_attempt: u32)
    ensures
        policy.attempt_budget() >= 1,
        policy matches FastCasPolicy::SpinYield { spin_attempts, .. } ==> (next_attempt
            <= spin_attempts <==> !policy.yields_before(next_attempt)),
        !(policy is SpinYield) ==> !policy.yields_before(next_attempt),
{
}

} // verus!
