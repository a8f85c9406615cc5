use container_health::{ContainerState, HealthStatus, MonitorError};

fn all_states() -> [ContainerState; 8] {
    [
        ContainerState::Created,
        ContainerState::Running,
        ContainerState::Paused,
        ContainerState::Restarting,
        ContainerState::Exited,
        ContainerState::Stopped,
        ContainerState::Removing,
        ContainerState::Dead,
    ]
}

#[test]
fn state_names_are_lower_case() {
    let names =
        ["created", "running", "paused", "restarting", "exited", "stopped", "removing", "dead"];
    for (state, name) in all_states().iter().zip(names) {
        assert_eq!(state.as_str(), name);
        assert_eq!(state.to_string(), name);
    }
}

#[test]
fn state_is_read_from_its_name() {
    for state in all_states() {
        assert_eq!(ContainerState::from_status(state.as_str()), state);
    }
}

#[test]
fn unknown_status_reads_as_stopped() {
    assert_eq!(ContainerState::from_status(""), ContainerState::Stopped);
    assert_eq!(ContainerState::from_status("Running"), ContainerState::Stopped);
    assert_eq!(ContainerState::from_status("running "), ContainerState::Stopped);
    assert_eq!(ContainerState::from_status("up"), ContainerState::Stopped);
    assert_eq!(ContainerState::from_status("stopped"), ContainerState::Stopped);
}

#[test]
fn state_symbols() {
    assert_eq!(ContainerState::Running.symbol(), "🟢");
    assert_eq!(ContainerState::Exited.symbol(), "⭕");
    assert_eq!(ContainerState::Paused.symbol(), "🟡");
    assert_eq!(ContainerState::Restarting.symbol(), "🔁");
    assert_eq!(ContainerState::Created.symbol(), "⚪");
    assert_eq!(ContainerState::Stopped.symbol(), "⚪");
    assert_eq!(ContainerState::Removing.symbol(), "⚪");
    assert_eq!(ContainerState::Dead.symbol(), "⚪");
}

#[test]
fn only_exited_and_dead_are_terminated() {
    for state in all_states() {
        let expected = state == ContainerState::Exited || state == ContainerState::Dead;
        assert_eq!(state.terminated(), expected);
    }
}

#[test]
fn status_labels() {
    assert_eq!(HealthStatus::Healthy.to_string(), "💚 Healthy");
    assert_eq!(HealthStatus::Unhealthy.to_string(), "🔴 Unhealthy");
    assert_eq!(HealthStatus::Stall.to_string(), "⚫ Stall");
    assert_eq!(HealthStatus::Stall.as_str(), "⚫ Stall");
}

#[test]
fn only_runtime_and_store_failures_are_fatal() {
    assert!(MonitorError::RuntimeUnavailable.is_fatal());
    assert!(MonitorError::StoreUnavailable.is_fatal());
    assert!(!MonitorError::ContainerNotFound.is_fatal());
    assert!(!MonitorError::ParseError.is_fatal());
    assert!(!MonitorError::CacheUnavailable.is_fatal());
}

#[test]
fn errors_describe_themselves() {
    assert_eq!(MonitorError::RuntimeUnavailable.as_str(), "container runtime is unavailable");
    assert_eq!(MonitorError::ContainerNotFound.as_str(), "container not found");
    assert_eq!(MonitorError::ParseError.as_str(), "malformed value from the runtime");
    assert_eq!(MonitorError::CacheUnavailable.as_str(), "cache is unavailable");
    assert_eq!(MonitorError::StoreUnavailable.as_str(), "durable store is unavailable");
}
