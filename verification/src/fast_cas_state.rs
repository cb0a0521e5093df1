//! Compatibility name for the state used by `FastCas`.

use crate::cas_cell::CasCell;
use vstd::prelude::*;

verus! {

/// Shared atomic state used by `FastCas`: the same type as [`CasCell`].
pub type FastCasState = CasCell;

} // verus!
