use qrap_core::runtime::{QrapRuntime, RuntimeConfig, RuntimeError, RuntimeState};
use qrap_core::{init, VERSION};
use std::time::Duration;

#[test]
fn test_init() {
    assert!(init().is_ok());
}

#[test]
fn test_version() {
    assert_eq!(VERSION, "0.1.0");
}

#[test]
fn test_default_config() {
    let config = RuntimeConfig::default();
    assert_eq!(config.num_qubits, 4);
    assert!(!config.verbose);
}

#[test]
fn test_runtime_creation() {
    let runtime = QrapRuntime::new(RuntimeConfig::default());
    assert!(runtime.is_ok());
    let runtime = runtime.unwrap();
    assert_eq!(runtime.state(), RuntimeState::Ready);
}

#[test]
fn test_runtime_invalid_qubits() {
    let config = RuntimeConfig::new(0);
    let runtime = QrapRuntime::new(config);
    assert!(runtime.is_err());
}

#[test]
fn test_runtime_lifecycle() {
    let mut runtime = QrapRuntime::new(RuntimeConfig::default()).unwrap();
    assert_eq!(runtime.state(), RuntimeState::Ready);

    runtime.start().unwrap();
    assert_eq!(runtime.state(), RuntimeState::Running);

    let elapsed = runtime.stop().unwrap();
    assert_eq!(runtime.state(), RuntimeState::Completed);
    assert!(elapsed.as_nanos() > 0);
}

#[test]
fn test_runtime_default_config() {
    let config = RuntimeConfig::default();

    assert_eq!(config.num_qubits, 4);
    assert_eq!(config.max_execution_time, Duration::from_secs(60));
    assert!(!config.verbose);
}

#[test]
fn test_runtime_custom_config() {
    let config = RuntimeConfig::new(8)
        .with_max_execution_time(Duration::from_secs(120))
        .with_verbose(true);

    assert_eq!(config.num_qubits, 8);
    assert_eq!(config.max_execution_time, Duration::from_secs(120));
    assert!(config.verbose);
}

#[test]
fn test_runtime_creation_valid() {
    let config = RuntimeConfig::new(4);
    let runtime = QrapRuntime::new(config);

    assert!(runtime.is_ok());
    let rt = runtime.unwrap();
    assert_eq!(rt.state(), RuntimeState::Ready);
}

#[test]
fn test_runtime_creation_zero_qubits() {
    let config = RuntimeConfig::new(0);
    let runtime = QrapRuntime::new(config);

    assert!(runtime.is_err());
    match runtime.unwrap_err() {
        RuntimeError::ConfigurationError(msg) => {
            assert!(msg.contains("greater than 0"));
        }
        _ => panic!("Expected ConfigurationError"),
    }
}

#[test]
fn test_runtime_creation_too_many_qubits() {
    let config = RuntimeConfig::new(25);
    let runtime = QrapRuntime::new(config);

    assert!(runtime.is_err());
    match runtime.unwrap_err() {
        RuntimeError::ConfigurationError(msg) => {
            assert!(msg.contains("exceed 20"));
        }
        _ => panic!("Expected ConfigurationError"),
    }
}

#[test]
fn test_runtime_lifecycle_normal() {
    let mut runtime = QrapRuntime::new(RuntimeConfig::default()).unwrap();

    assert_eq!(runtime.state(), RuntimeState::Ready);
    assert_eq!(runtime.execution_count(), 0);

    assert!(runtime.start().is_ok());
    assert_eq!(runtime.state(), RuntimeState::Running);
    assert_eq!(runtime.execution_count(), 1);

    let elapsed = runtime.stop();
    assert!(elapsed.is_ok());
    assert_eq!(runtime.state(), RuntimeState::Completed);
}

#[test]
fn test_runtime_multiple_executions() {
    let mut runtime = QrapRuntime::new(RuntimeConfig::default()).unwrap();

    for i in 1..=5 {
        runtime.start().unwrap();
        runtime.stop().unwrap();
        assert_eq!(runtime.execution_count(), i);
    }
}

#[test]
fn test_runtime_start_from_completed() {
    let mut runtime = QrapRuntime::new(RuntimeConfig::default()).unwrap();

    runtime.start().unwrap();
    runtime.stop().unwrap();
    assert_eq!(runtime.state(), RuntimeState::Completed);

    assert!(runtime.start().is_ok());
    assert_eq!(runtime.state(), RuntimeState::Running);
}

#[test]
fn test_runtime_double_start_error() {
    let mut runtime = QrapRuntime::new(RuntimeConfig::default()).unwrap();

    assert!(runtime.start().is_ok());

    let result = runtime.start();
    assert!(result.is_err());
    match result.unwrap_err() {
        RuntimeError::StateTransitionError(msg) => {
            assert!(msg.contains("Running"));
        }
        _ => panic!("Expected StateTransitionError"),
    }
}

#[test]
fn test_runtime_stop_without_start_error() {
    let mut runtime = QrapRuntime::new(RuntimeConfig::default()).unwrap();

    let result = runtime.stop();
    assert!(result.is_err());
    match result.unwrap_err() {
        RuntimeError::StateTransitionError(msg) => {
            assert!(msg.contains("Ready"));
        }
        _ => panic!("Expected StateTransitionError"),
    }
}

#[test]
fn test_runtime_reset() {
    let mut runtime = QrapRuntime::new(RuntimeConfig::default()).unwrap();

    runtime.start().unwrap();
    runtime.stop().unwrap();
    assert_eq!(runtime.state(), RuntimeState::Completed);

    runtime.reset();
    assert_eq!(runtime.state(), RuntimeState::Ready);
}

#[test]
fn test_runtime_config_getters() {
    let config = RuntimeConfig::new(6)
        .with_max_execution_time(Duration::from_secs(30))
        .with_verbose(true);

    let runtime = QrapRuntime::new(config).unwrap();
    let retrieved_config = runtime.config();

    assert_eq!(retrieved_config.num_qubits, 6);
    assert_eq!(retrieved_config.max_execution_time, Duration::from_secs(30));
    assert!(retrieved_config.verbose);
}

#[test]
fn test_runtime_boundary_qubits() {
    let config = RuntimeConfig::new(1);
    assert!(QrapRuntime::new(config).is_ok());

    let config = RuntimeConfig::new(20);
    assert!(QrapRuntime::new(config).is_ok());
}

#[test]
fn test_runtime_check_timeout_not_exceeded() {
    let mut runtime = QrapRuntime::new(
        RuntimeConfig::new(4).with_max_execution_time(Duration::from_secs(60)),
    )
    .unwrap();

    runtime.start().unwrap();
    assert!(runtime.check_timeout().is_ok());
    runtime.stop().unwrap();
}

#[test]
fn configuration_error_messages_exact() {
    match QrapRuntime::new(RuntimeConfig::new(0)).unwrap_err() {
        RuntimeError::ConfigurationError(m) => {
            assert_eq!(m, "Number of qubits must be greater than 0")
        }
        _ => panic!("expected a configuration error"),
    }
    match QrapRuntime::new(RuntimeConfig::new(21)).unwrap_err() {
        RuntimeError::ConfigurationError(m) => {
            assert_eq!(m, "Number of qubits must not exceed 20 for simulation")
        }
        _ => panic!("expected a configuration error"),
    }
}

#[test]
fn transition_error_messages_exact() {
    let mut runtime = QrapRuntime::new(RuntimeConfig::default()).unwrap();
    match runtime.stop().unwrap_err() {
        RuntimeError::StateTransitionError(m) => assert_eq!(m, "Cannot stop from state Ready"),
        _ => panic!("expected a transition error"),
    }
    runtime.start().unwrap();
    match runtime.start().unwrap_err() {
        RuntimeError::StateTransitionError(m) => assert_eq!(m, "Cannot start from state Running"),
        _ => panic!("expected a transition error"),
    }
    runtime.stop().unwrap();
    match runtime.stop().unwrap_err() {
        RuntimeError::StateTransitionError(m) => {
            assert_eq!(m, "Cannot stop from state Completed")
        }
        _ => panic!("expected a transition error"),
    }
}

#[test]
fn refused_transitions_change_nothing() {
    let mut runtime = QrapRuntime::new(RuntimeConfig::default()).unwrap();
    assert!(runtime.stop().is_err());
    assert_eq!(runtime.state(), RuntimeState::Ready);
    assert_eq!(runtime.execution_count(), 0);
    runtime.start().unwrap();
    assert!(runtime.start().is_err());
    assert_eq!(runtime.state(), RuntimeState::Running);
    assert_eq!(runtime.execution_count(), 1);
}

#[test]
fn reset_keeps_count_and_allows_start() {
    let mut runtime = QrapRuntime::new(RuntimeConfig::default()).unwrap();
    runtime.start().unwrap();
    runtime.reset();
    assert_eq!(runtime.state(), RuntimeState::Ready);
    assert_eq!(runtime.execution_count(), 1);
    assert!(runtime.stop().is_err());
    runtime.start().unwrap();
    assert_eq!(runtime.execution_count(), 2);
    runtime.reset();
    runtime.reset();
    assert_eq!(runtime.state(), RuntimeState::Ready);
}

#[test]
fn check_timeout_outside_run_passes() {
    let mut runtime = QrapRuntime::new(
        RuntimeConfig::new(4).with_max_execution_time(Duration::from_secs(0)),
    )
    .unwrap();
    assert!(runtime.check_timeout().is_ok());
    runtime.start().unwrap();
    runtime.stop().unwrap();
    assert!(runtime.check_timeout().is_ok());
}

#[test]
fn check_timeout_reports_the_limit() {
    let mut runtime = QrapRuntime::new(
        RuntimeConfig::new(4).with_max_execution_time(Duration::from_nanos(0)),
    )
    .unwrap();
    runtime.start().unwrap();
    let mut waited = 0u64;
    let mut result = runtime.check_timeout();
    while result.is_ok() && waited < 1_000_000 {
        waited += 1;
        result = runtime.check_timeout();
    }
    match result {
        Err(RuntimeError::TimeoutError(d)) => assert_eq!(d, Duration::from_nanos(0)),
        _ => panic!("expected a timeout"),
    }
}

#[test]
fn state_default_is_uninitialized() {
    assert_eq!(RuntimeState::default(), RuntimeState::Uninitialized);
}

#[test]
fn config_new_keeps_default_limit() {
    let config = RuntimeConfig::new(7);
    assert_eq!(config.num_qubits, 7);
    assert_eq!(config.max_execution_time, Duration::from_secs(60));
    assert!(!config.verbose);
}

#[test]
fn count_tracks_successful_starts_over_mixed_calls() {
    let mut runtime = QrapRuntime::new(RuntimeConfig::new(3)).unwrap();
    let mut successes = 0u64;
    // start, start (refused), stop, stop (refused), reset, start, reset, start, stop
    if runtime.start().is_ok() { successes += 1; }
    if runtime.start().is_ok() { successes += 1; }
    let _ = runtime.stop();
    let _ = runtime.stop();
    runtime.reset();
    if runtime.start().is_ok() { successes += 1; }
    runtime.reset();
    if runtime.start().is_ok() { successes += 1; }
    let _ = runtime.stop();
    assert_eq!(successes, 3);
    assert_eq!(runtime.execution_count(), 3);
    assert_eq!(runtime.state(), RuntimeState::Completed);
    assert_eq!(runtime.config().num_qubits, 3);
}

#[test]
fn timeout_decided_by_elapsed_and_limit() {
    let runtime = QrapRuntime::new(
        RuntimeConfig::new(4).with_max_execution_time(Duration::from_secs(60)),
    )
    .unwrap();
    assert!(runtime.timeout_after(&Duration::from_secs(59)).is_ok());
    assert!(runtime.timeout_after(&Duration::from_secs(60)).is_ok());
    match runtime.timeout_after(&Duration::from_millis(60_001)) {
        Err(RuntimeError::TimeoutError(d)) => assert_eq!(d, Duration::from_secs(60)),
        _ => panic!("expected a timeout"),
    }
}

#[test]
fn stop_measures_from_the_start() {
    let mut runtime = QrapRuntime::new(RuntimeConfig::default()).unwrap();
    runtime.start().unwrap();
    let mut spins = 0u64;
    for i in 0..200_000u64 {
        spins = spins.wrapping_add(i);
    }
    assert!(spins > 0);
    let elapsed = runtime.stop().unwrap();
    assert!(elapsed > Duration::from_nanos(0));
    assert!(elapsed < Duration::from_secs(60));
}

#[test]
fn state_follows_last_successful_call() {
    let mut runtime = QrapRuntime::new(RuntimeConfig::default()).unwrap();
    assert!(runtime.stop().is_err());
    assert_eq!(runtime.state(), RuntimeState::Ready);
    runtime.start().unwrap();
    assert!(runtime.check_timeout().is_ok());
    assert!(runtime.start().is_err());
    assert_eq!(runtime.state(), RuntimeState::Running);
    runtime.stop().unwrap();
    assert!(runtime.stop().is_err());
    assert_eq!(runtime.state(), RuntimeState::Completed);
    runtime.reset();
    assert!(runtime.stop().is_err());
    assert_eq!(runtime.state(), RuntimeState::Ready);
}
