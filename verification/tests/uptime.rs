use container_health::uptime::{format_uptime, uptime_from};
use container_health::{ContainerHealth, ContainerState, MonitorError};

/// 2024-01-01T00:00:00Z in seconds since the Unix epoch.
const NEW_YEAR: i64 = 1_704_067_200;

const MINUTE: i64 = 60;
const HOUR: i64 = 3600;
const DAY: i64 = 86400;

fn uptime(started_at: &str, state: ContainerState, now: i64) -> Result<String, MonitorError> {
    ContainerHealth::calculate_uptime(started_at, &state, now)
}

#[test]
fn uptime_of_exited_is_zero_minutes() {
    let now = NEW_YEAR + 5 * DAY;
    assert_eq!(uptime("2024-01-01T00:00:00Z", ContainerState::Exited, now).unwrap(), "0m");
    assert_eq!(uptime("0001-01-01T00:00:00Z", ContainerState::Exited, now).unwrap(), "0m");
    assert_eq!(uptime("", ContainerState::Exited, now).unwrap(), "0m");
    assert_eq!(uptime("not a time", ContainerState::Exited, i64::MIN).unwrap(), "0m");
}

#[test]
fn uptime_of_dead_is_zero_minutes() {
    let now = NEW_YEAR + 5 * DAY;
    assert_eq!(uptime("2024-01-01T00:00:00Z", ContainerState::Dead, now).unwrap(), "0m");
    assert_eq!(uptime("garbage", ContainerState::Dead, now).unwrap(), "0m");
    assert_eq!(uptime("", ContainerState::Dead, i64::MAX).unwrap(), "0m");
}

#[test]
fn uptime_reads_the_start_time() {
    let now = NEW_YEAR + 2 * DAY + 3 * HOUR + 4 * MINUTE + 5;
    assert_eq!(uptime("2024-01-01T00:00:00Z", ContainerState::Running, now).unwrap(), "2d 3h");
    // The same instant, written with an offset and with a fraction.
    assert_eq!(uptime("2024-01-01T01:00:00+01:00", ContainerState::Running, now).unwrap(), "2d 3h");
    assert_eq!(
        uptime("2023-12-31T19:00:00.25-05:00", ContainerState::Running, now).unwrap(),
        "2d 3h"
    );
    // An hour later, an hour less.
    assert_eq!(uptime("2024-01-01T01:00:00Z", ContainerState::Running, now).unwrap(), "2d 2h");
}

#[test]
fn uptime_of_other_states_is_computed() {
    let now = NEW_YEAR + 7 * MINUTE;
    for state in [
        ContainerState::Created,
        ContainerState::Running,
        ContainerState::Paused,
        ContainerState::Restarting,
        ContainerState::Stopped,
        ContainerState::Removing,
    ] {
        assert_eq!(uptime("2024-01-01T00:00:00Z", state, now).unwrap(), "7m");
    }
}

#[test]
fn malformed_start_time_is_a_parse_error() {
    let now = NEW_YEAR;
    for text in ["", "yesterday", "2024-01-01", "2024-13-01T00:00:00Z", "2024-01-01T00:00:00"] {
        assert_eq!(uptime(text, ContainerState::Running, now), Err(MonitorError::ParseError));
        assert_eq!(uptime(text, ContainerState::Paused, now), Err(MonitorError::ParseError));
    }
}

#[test]
fn uptime_shows_the_two_largest_parts() {
    assert_eq!(format_uptime((2 * DAY + 3 * HOUR) as i128), "2d 3h");
    assert_eq!(format_uptime((2 * DAY + 3 * HOUR + 59 * MINUTE + 59) as i128), "2d 3h");
    assert_eq!(format_uptime((5 * HOUR + 12 * MINUTE) as i128), "5h 12m");
    assert_eq!(format_uptime((7 * MINUTE) as i128), "7m");
    assert_eq!(format_uptime((7 * MINUTE + 59) as i128), "7m");
}

#[test]
fn uptime_leaves_out_parts_that_are_zero() {
    assert_eq!(format_uptime((2 * DAY + 5 * MINUTE) as i128), "2d 5m");
    assert_eq!(format_uptime((2 * DAY) as i128), "2d");
    assert_eq!(format_uptime((2 * DAY + 59) as i128), "2d");
    assert_eq!(format_uptime((5 * HOUR) as i128), "5h");
    assert_eq!(format_uptime((23 * HOUR + 59 * MINUTE + 59) as i128), "23h 59m");
    assert_eq!(format_uptime(DAY as i128), "1d");
}

#[test]
fn uptime_under_a_minute_is_zero_minutes() {
    assert_eq!(format_uptime(0), "0m");
    assert_eq!(format_uptime(59), "0m");
    assert_eq!(format_uptime(60), "1m");
    assert_eq!(format_uptime(3599), "59m");
    assert_eq!(format_uptime(3600), "1h");
}

#[test]
fn uptime_of_many_days() {
    assert_eq!(format_uptime((400 * DAY + 23 * HOUR) as i128), "400d 23h");
    assert_eq!(format_uptime(i64::MAX as i128), "106751991167300d 15h");
}

#[test]
fn uptime_before_the_start_shows_signed_minutes() {
    assert_eq!(format_uptime(-1), "0m");
    assert_eq!(format_uptime(-90), "-1m");
    assert_eq!(format_uptime(-(5 * MINUTE) as i128), "-5m");
    assert_eq!(format_uptime(-(HOUR) as i128), "0m");
    assert_eq!(format_uptime(-(2 * DAY + 3 * HOUR + 4 * MINUTE) as i128), "-4m");
    assert_eq!(uptime("2024-01-01T00:00:00Z", ContainerState::Running, NEW_YEAR - 600).unwrap(), "-10m");
}

#[test]
fn uptime_spans_the_whole_range_of_times() {
    let text = uptime("2024-01-01T00:00:00Z", ContainerState::Running, i64::MAX).unwrap();
    assert_eq!(text, "106751991147577d 15h");
    let text = uptime("2024-01-01T00:00:00Z", ContainerState::Running, i64::MIN).unwrap();
    assert_eq!(text, "-30m");
}

#[test]
fn uptime_from_a_start_that_was_read() {
    assert_eq!(uptime_from(Some(NEW_YEAR), NEW_YEAR + 5 * HOUR + 12 * MINUTE).unwrap(), "5h 12m");
    assert_eq!(uptime_from(Some(0), 0).unwrap(), "0m");
    assert_eq!(uptime_from(Some(i64::MIN), i64::MAX).unwrap(), "213503982334601d 7h");
}

#[test]
fn uptime_from_a_start_that_was_not_read() {
    assert_eq!(uptime_from(None, NEW_YEAR), Err(MonitorError::ParseError));
    assert_eq!(uptime_from(None, i64::MIN), Err(MonitorError::ParseError));
}
