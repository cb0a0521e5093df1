//! Lightweight compare-and-swap primitives for `u64` state words.
//!
//! [`CasCell`] owns an atomic state word. [`FastCas`] adds bounded conflict
//! policies and attempt metadata for callers that need explicit control.
//!
//! Operations handed to the executors may run more than once after conflicts
//! and should avoid non-idempotent side effects.

pub mod cas_cell;
pub mod fast_cas;
pub mod fast_cas_decision;
pub mod fast_cas_error;
pub mod fast_cas_policy;
pub mod fast_cas_state;
pub mod fast_cas_success;

pub use cas_cell::CasCell;
pub use cas_cell::CasCellStep;
pub use fast_cas::FastCas;
pub use fast_cas::FastCasAttempt;
pub use fast_cas_decision::FastCasDecision;
pub use fast_cas_error::FastCasError;
pub use fast_cas_policy::FastCasPolicy;
pub use fast_cas_state::FastCasState;
pub use fast_cas_success::FastCasSuccess;
