# qubit_fast_cas

Compare-and-swap primitives for `u64` state words, verified with Verus.

- `src/cas_cell.rs`: `CasCell`, an atomic `u64` cell (load, store, swap,
  compare-set) and `try_commit`, one attempt of a functional update.
- `src/fast_cas_policy.rs`: the `Once` / `Spin` / `SpinYield` retry policies.
- `src/fast_cas_decision.rs`, `src/fast_cas_success.rs`,
  `src/fast_cas_error.rs`: the decision, success and failure values.
- `src/fast_cas.rs`: `FastCas`, the bounded executor (`execute`, `update_by`,
  `compare_update`, `compare_update_with`) and its step function `conclude`.
- `app/lib.rs`: what needs the thread API or an unbounded loop: the
  spin-or-yield pause between attempts, and `CasCell::update` /
  `try_update`, which retry until no other writer wins the race.
