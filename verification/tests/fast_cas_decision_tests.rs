use qubit_fast_cas::FastCasDecision;

#[test]
fn test_fast_cas_decision_constructors_create_variants() {
    assert_eq!(
        FastCasDecision::<_, &'static str>::update(2, "ok"),
        FastCasDecision::Update { next: 2, output: "ok" }
    );
    assert_eq!(
        FastCasDecision::<_, &'static str>::finish("done"),
        FastCasDecision::Finish { output: "done" }
    );
    assert_eq!(
        FastCasDecision::<u64, _>::abort("error"),
        FastCasDecision::Abort { error: "error" }
    );
}

#[test]
fn decision_update_accepts_full_state_range() {
    assert_eq!(
        FastCasDecision::<u8, ()>::update(u64::MAX, 7),
        FastCasDecision::Update {
            next: u64::MAX,
            output: 7
        }
    );
}
