use qubit_fast_cas::FastCasState;

#[test]
fn test_fast_cas_state_alias_uses_atomic_u64_api() {
    let state = FastCasState::new(1);

    assert_eq!(state.load(), 1);
    assert!(state.compare_set(1, 2).is_ok());
    assert_eq!(state.load(), 2);
}
