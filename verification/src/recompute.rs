//! Building a fresh health record from what the runtime reported.

use crate::classifier::classify;
use crate::normalizer::{bytes_text, cpu_percent_of, memory_percent_of};
use crate::percent::Percent;
use crate::record::{ContainerHealth, HealthView};
use crate::state::{ContainerState, HealthStatus};
use crate::telemetry::{ContainerInspection, ContainerStats, InspectionView, StatsView};
use crate::uptime::uptime_of;
use vstd::prelude::*;

verus! {

/// The uptime shown in a record: the uptime of the container, or `0m` where
/// its start time is malformed.
pub open spec fn uptime_or_default(started_at: Seq<char>, state: ContainerState, now: i64) -> Seq<
    char,
> {
    match uptime_of(started_at, state, now) {
        Ok(text) => text,
        Err(_) => "0m"@,
    }
}

/// The record of the container `name`, from its inspection and one sample
/// of its counters, taken at `now` (seconds since the Unix epoch).
pub open spec fn health_of(
    name: Seq<char>,
    inspection: InspectionView,
    stats: StatsView,
    now: i64,
) -> HealthView {
    let state = ContainerState::of_status(inspection.state);
    let cpu_percent = cpu_percent_of(
        stats.cpu_usage_total,
        stats.previous_cpu_usage_total,
        stats.system_cpu_delta,
        stats.per_cpu_count,
    );
    let memory_percent = memory_percent_of(stats.memory_usage_bytes, stats.memory_limit_bytes);
    HealthView {
        id: stats.runtime_id,
        name: name,
        status: classify(state, cpu_percent, memory_percent, inspection.restart_count),
        container_state: state,
        restart_count: inspection.restart_count,
        cpu_percent: cpu_percent,
        memory_usage: bytes_text(stats.memory_usage_bytes as nat),
        memory_percent: memory_percent,
        uptime: uptime_or_default(inspection.started_at, state, now),
        last_updated: now,
    }
}

/// The record that stands in for a container of which nothing is known
/// yet, made at `now`.
pub open spec fn placeholder(now: i64) -> HealthView {
    HealthView {
        id: Seq::empty(),
        name: "container"@,
        status: HealthStatus::Healthy,
        container_state: ContainerState::Exited,
        restart_count: 0,
        cpu_percent: Percent::of(0, 1),
        memory_usage: "0B"@,
        memory_percent: Percent::of(0, 1),
        uptime: Seq::empty(),
        last_updated: now,
    }
}

/// A record built later is not older: the time of a record is the time of
/// its sample, whatever else the runtime reported.
pub proof fn lemma_later_record_is_not_older(
    name: Seq<char>,
    first: (InspectionView, StatsView, i64),
    second: (InspectionView, StatsView, i64),
)
    requires
        first.2 <= second.2,
    ensures
        health_of(name, first.0, first.1, first.2).last_updated <= health_of(
            name,
            second.0,
            second.1,
            second.2,
        ).last_updated,
{
}

impl ContainerHealth {
    /// Builds the record of the container `container_name` from its
    /// inspection and one sample of its counters, taken at `now` (seconds
    /// since the Unix epoch).
    ///
    /// The state is read from the status text, the counters are normalised
    /// and the verdict follows from both. A start time that does not parse
    /// gives the uptime `0m`.
    pub fn new(
        container_name: &str,
        inspection: &ContainerInspection,
        stats: &ContainerStats,
        now: i64,
    ) -> (health: ContainerHealth)
        ensures
            health@ == health_of(container_name@, inspection@, stats@, now),
            health.status == classify(
                health.container_state,
                health.cpu_percent,
                health.memory_percent,
                health.restart_count,
            ),
            health.container_state.is_terminated() ==> health.uptime@ == "0m"@,
            health.last_updated == now,
    {
        let container_state = ContainerState::from_status(inspection.state.as_str());
        let uptime = match ContainerHealth::calculate_uptime(
            inspection.started_at.as_str(),
            &container_state,
            now,
        ) {
            Ok(text) => text,
            Err(_) => String::from_str("0m"),
        };
        let cpu_percent = ContainerHealth::calculate_cpu_percent(stats);
        let (memory_usage, memory_percent) = ContainerHealth::calculate_memory_stats(stats);
        let status = ContainerHealth::get_health_status(
            &container_state,
            cpu_percent,
            memory_percent,
            inspection.restart_count,
        );
        ContainerHealth {
            id: stats.runtime_id.clone(),
            name: String::from_str(container_name),
            status,
            container_state,
            restart_count: inspection.restart_count,
            cpu_percent,
            memory_usage,
            memory_percent,
            uptime,
            last_updated: now,
        }
    }

    /// The record that stands in for a container of which nothing is known
    /// yet, made at `now` (seconds since the Unix epoch).
    pub fn default_at(now: i64) -> (health: ContainerHealth)
        ensures
            health@ == placeholder(now),
    {
        ContainerHealth {
            id: String::new(),
            name: String::from_str("container"),
            status: HealthStatus::Healthy,
            container_state: ContainerState::Exited,
            restart_count: 0,
            cpu_percent: Percent::zero(),
            memory_usage: String::from_str("0B"),
            memory_percent: Percent::zero(),
            uptime: String::new(),
            last_updated: now,
        }
    }
}

} // verus!
