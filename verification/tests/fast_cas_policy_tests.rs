use qubit_fast_cas::FastCasPolicy;

#[test]
fn test_fast_cas_policy_once_uses_one_attempt() {
    let policy = FastCasPolicy::once();

    assert_eq!(policy, FastCasPolicy::Once);
    assert_eq!(policy.max_attempts(), 1);
    assert!(!policy.should_yield_before(2));
}

#[test]
fn test_fast_cas_policy_spin_normalizes_attempts() {
    let policy = FastCasPolicy::spin(0);

    assert_eq!(policy, FastCasPolicy::Spin { max_attempts: 1 });
    assert_eq!(policy.max_attempts(), 1);
    assert!(!policy.should_yield_before(2));
}

#[test]
fn test_fast_cas_policy_spin_yield_caps_spin_attempts() {
    let policy = FastCasPolicy::spin_yield(10, 3);

    assert_eq!(
        policy,
        FastCasPolicy::SpinYield {
            spin_attempts: 3,
            max_attempts: 3,
        }
    );
    assert_eq!(policy.max_attempts(), 3);
    assert!(!policy.should_yield_before(3));
    assert!(policy.should_yield_before(4));
}

#[test]
fn policy_spin_yield_keeps_smaller_spin_prefix() {
    let policy = FastCasPolicy::spin_yield(2, 0);
    assert_eq!(
        policy,
        FastCasPolicy::SpinYield {
            spin_attempts: 1,
            max_attempts: 1,
        }
    );

    let policy = FastCasPolicy::spin_yield(2, 5);
    assert_eq!(
        policy,
        FastCasPolicy::SpinYield {
            spin_attempts: 2,
            max_attempts: 5,
        }
    );
    assert!(!policy.should_yield_before(1));
    assert!(!policy.should_yield_before(2));
    assert!(policy.should_yield_before(3));
    assert!(policy.should_yield_before(u32::MAX));
}

#[test]
fn policy_max_attempts_normalizes_hand_built_variants() {
    assert_eq!(FastCasPolicy::Spin { max_attempts: 0 }.max_attempts(), 1);
    assert_eq!(FastCasPolicy::Spin { max_attempts: 7 }.max_attempts(), 7);
    assert_eq!(
        FastCasPolicy::SpinYield {
            spin_attempts: 9,
            max_attempts: 0,
        }
        .max_attempts(),
        1
    );
    assert_eq!(FastCasPolicy::spin(u32::MAX).max_attempts(), u32::MAX);
}

#[test]
fn policy_spin_never_yields() {
    let policy = FastCasPolicy::spin(4);
    for attempt in 0..10 {
        assert!(!policy.should_yield_before(attempt));
    }
    assert!(!FastCasPolicy::once().should_yield_before(u32::MAX));
}
