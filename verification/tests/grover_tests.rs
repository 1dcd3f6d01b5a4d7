use qrap_core::grover::{count_true, GroverOracle, SingleTargetOracle};

#[test]
fn test_single_target_oracle() {
    let oracle = SingleTargetOracle::new(5, 16);
    assert!(oracle.is_target(5));
    assert!(!oracle.is_target(3));
    assert_eq!(oracle.target(), 5);
}

#[test]
fn oracle_reduces_target_into_space() {
    let oracle = SingleTargetOracle::new(37, 16);
    assert_eq!(oracle.target(), 5);
    assert!(oracle.is_target(5));
    assert!(!oracle.is_target(37));
    let marked = (0..16).filter(|&i| oracle.is_target(i)).count();
    assert_eq!(marked, 1);
}

#[test]
fn count_true_counts_successes() {
    assert_eq!(count_true(&[]), 0);
    assert_eq!(count_true(&[true, false, true, true]), 3);
    assert_eq!(count_true(&[false, false]), 0);
}
