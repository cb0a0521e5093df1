use qubit_fast_cas::{FastCas, FastCasDecision, FastCasError, FastCasState};

type TestDecision = FastCasDecision<u64, &'static str>;
type TestOperation = fn(u64) -> TestDecision;

fn abort_stop(_current: u64) -> TestDecision {
    FastCasDecision::abort("stop")
}

fn no_pause(_next_attempt: u32, _yield_first: bool) {}

#[test]
fn test_fast_cas_error_accessors_for_abort() {
    let state = FastCasState::new(4);
    let abort_stop: TestOperation = abort_stop;
    let error = FastCas::once()
        .execute(&state, abort_stop, no_pause)
        .expect_err("operation should abort");

    assert_eq!(error.current(), 4);
    assert_eq!(error.attempts(), 1);
    assert!(error.is_abort());
    assert!(!error.is_conflict());
    assert_eq!(error.error(), Some(&"stop"));
    assert_eq!(error.into_error(), Some("stop"));
}

#[test]
fn test_fast_cas_error_accessors_for_conflict() {
    let error = FastCasError::<&'static str>::Conflict {
        current: 9,
        attempts: 2,
    };

    assert_eq!(error.current(), 9);
    assert_eq!(error.attempts(), 2);
    assert!(!error.is_abort());
    assert!(error.is_conflict());
    assert_eq!(error.error(), None);
    assert_eq!(error.into_error(), None);
}

#[test]
fn error_accessors_for_hand_built_abort() {
    let error = FastCasError::Abort {
        current: u64::MAX,
        error: 5u8,
        attempts: 3,
    };

    assert_eq!(error.current(), u64::MAX);
    assert_eq!(error.attempts(), 3);
    assert!(error.is_abort());
    assert_eq!(error.error(), Some(&5));
    assert_eq!(error.into_error(), Some(5));
}
