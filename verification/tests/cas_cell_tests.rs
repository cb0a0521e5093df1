use qubit_fast_cas::CasCell;
use qubit_fast_cas::CasCellStep;

#[test]
fn test_cas_cell_default_initializes_to_zero() {
    let cell = CasCell::default();

    assert_eq!(cell.load(), 0);
}

#[test]
fn test_cas_cell_load_store_swap_and_compare_set() {
    let cell = CasCell::new(1);

    assert_eq!(cell.load(), 1);

    cell.store(2);
    assert_eq!(cell.load(), 2);

    assert_eq!(cell.swap(3), 2);
    assert_eq!(cell.load(), 3);

    assert_eq!(cell.compare_set(2, 4), Err(3));
    assert_eq!(cell.load(), 3);

    assert_eq!(cell.compare_set(3, 4), Ok(()));
    assert_eq!(cell.load(), 4);
}

#[test]
fn cas_cell_supports_full_u64_range() {
    let cell = CasCell::new(u64::MAX);
    assert_eq!(cell.load(), u64::MAX);
    assert_eq!(cell.swap(0), u64::MAX);
    assert_eq!(cell.compare_set(0, u64::MAX), Ok(()));
    assert_eq!(cell.compare_set(0, 1), Err(u64::MAX));
}

#[test]
fn cas_cell_try_commit_installs_proposal_when_state_matches() {
    let cell = CasCell::new(10);

    let step = cell.try_commit(10, Ok::<(u64, u64), &str>((15, 20)));

    assert_eq!(step, CasCellStep::Committed(20));
    assert_eq!(cell.load(), 15);
}

#[test]
fn cas_cell_try_commit_reports_value_left_by_another_writer() {
    let cell = CasCell::new(0);
    cell.store(10);

    let step = cell.try_commit(0, Ok::<(u64, &str), ()>((1, "stale")));

    assert_eq!(step, CasCellStep::Retry(10));
    assert_eq!(cell.load(), 10);
}

#[test]
fn cas_cell_try_commit_rejects_without_writing() {
    let cell = CasCell::new(7);

    let step = cell.try_commit(7, Err::<(u64, ()), &str>("reject"));

    assert_eq!(step, CasCellStep::Rejected("reject"));
    assert_eq!(cell.load(), 7);
}

#[test]
fn cas_cell_settle_maps_each_proposal_and_write_outcome() {
    assert_eq!(
        CasCell::settle(Ok::<(u64, &str), ()>((1, "stale")), Err(10)),
        CasCellStep::Retry(10)
    );
    assert_eq!(
        CasCell::settle(Ok::<(u64, &str), ()>((11, "committed")), Ok(())),
        CasCellStep::Committed("committed")
    );
    assert_eq!(
        CasCell::settle(Err::<(u64, ()), &str>("reject"), Err(4)),
        CasCellStep::Rejected("reject")
    );
}
