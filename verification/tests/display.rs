use container_health::{
    cache_key, ContainerHealth, ContainerState, HealthStatus, HistoryRow, LatestRow, Percent,
};

fn record() -> ContainerHealth {
    ContainerHealth {
        id: String::from("4f1c9a"),
        name: String::from("web"),
        status: HealthStatus::Healthy,
        container_state: ContainerState::Running,
        restart_count: 2,
        cpu_percent: Percent::new(1234, 100).unwrap(),
        memory_usage: String::from("1.5KiB"),
        memory_percent: Percent::new(75, 2).unwrap(),
        uptime: String::from("5h 12m"),
        last_updated: 1_000,
    }
}

#[test]
fn describe_lists_every_part() {
    assert_eq!(
        record().describe(1_042),
        "🟢 web 💚 Healthy | CPU: 12.3% | Mem: 1.5KiB (37.5%) | Restarts: 2 | Uptime: 5h 12m | Updated: 42s ago"
    );
}

#[test]
fn describe_of_an_exited_container() {
    let mut health = record();
    health.container_state = ContainerState::Exited;
    health.status = HealthStatus::Unhealthy;
    health.uptime = String::from("0m");
    health.cpu_percent = Percent::zero();
    health.memory_percent = Percent::zero();
    health.memory_usage = String::from("0B");
    health.restart_count = 0;
    assert_eq!(
        health.describe(1_000),
        "⭕ web 🔴 Unhealthy | CPU: 0.0% | Mem: 0B (0.0%) | Restarts: 0 | Uptime: 0m | Updated: 0s ago"
    );
}

#[test]
fn describe_marks_each_state() {
    let marks = [
        (ContainerState::Created, "⚪"),
        (ContainerState::Running, "🟢"),
        (ContainerState::Paused, "🟡"),
        (ContainerState::Restarting, "🔁"),
        (ContainerState::Exited, "⭕"),
        (ContainerState::Stopped, "⚪"),
        (ContainerState::Removing, "⚪"),
        (ContainerState::Dead, "⚪"),
    ];
    for (state, mark) in marks {
        let mut health = record();
        health.container_state = state;
        let line = health.describe(1_000);
        assert!(line.starts_with(&format!("{} web ", mark)), "{}", line);
    }
}

#[test]
fn describe_spans_the_whole_range_of_times() {
    let mut health = record();
    health.last_updated = i64::MAX;
    health.restart_count = i64::MIN;
    let line = health.describe(i64::MIN);
    assert!(line.ends_with("| Restarts: -9223372036854775808 | Uptime: 5h 12m | Updated: -18446744073709551615s ago"));
}

#[test]
fn report_marks_a_cached_record() {
    let health = record();
    assert_eq!(health.report(false, 1_042), health.describe(1_042));
    assert_eq!(health.report(true, 1_042), format!("(from cache) {}", health.describe(1_042)));
}

#[test]
fn cache_key_has_the_prefix() {
    assert_eq!(cache_key("x"), "health-data:x");
    assert_eq!(cache_key("web-1"), "health-data:web-1");
    assert_eq!(cache_key(""), "health-data:");
}

#[test]
fn different_names_have_different_cache_keys() {
    let names = ["", "a", "b", "ab", "a:b", "health-data:", "health-data:a", " a", "a "];
    for first in names {
        for second in names {
            assert_eq!(cache_key(first) == cache_key(second), first == second);
        }
    }
}

#[test]
fn latest_row_holds_state_and_verdict_as_text() {
    assert_eq!(
        record().latest_row(),
        LatestRow {
            id: String::from("4f1c9a"),
            name: String::from("web"),
            container_state: String::from("running"),
            status: String::from("💚 Healthy"),
            last_updated: 1_000,
        }
    );
}

#[test]
fn history_row_holds_the_measurements() {
    assert_eq!(
        record().history_row(),
        HistoryRow {
            id: String::from("4f1c9a"),
            name: String::from("web"),
            status: String::from("💚 Healthy"),
            cpu_percent: Percent::new(1234, 100).unwrap(),
            memory_percent: Percent::new(75, 2).unwrap(),
            restart_count: 2,
            uptime: String::from("5h 12m"),
            timestamp: 1_000,
        }
    );
}
