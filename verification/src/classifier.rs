//! Judging the health of a container from its state, its CPU and memory
//! use, and the number of its restarts.

use crate::percent::Percent;
use crate::record::ContainerHealth;
use crate::state::{ContainerState, HealthStatus};
use vstd::prelude::*;

verus! {

/// The most restarts a healthy container may have had.
pub const MAX_HEALTHY_RESTARTS: i64 = 5;

/// The highest CPU or memory use, in percent, of a healthy container.
pub const MAX_HEALTHY_PERCENT: u64 = 80;

/// Whether a running container is under strain: more than
/// [`MAX_HEALTHY_RESTARTS`] restarts, or CPU or memory use above
/// [`MAX_HEALTHY_PERCENT`].
pub open spec fn strained(
    cpu_percent: Percent,
    memory_percent: Percent,
    restart_count: i64,
) -> bool {
    restart_count > MAX_HEALTHY_RESTARTS || cpu_percent.above(MAX_HEALTHY_PERCENT as nat)
        || memory_percent.above(MAX_HEALTHY_PERCENT as nat)
}

/// The verdict on a container.
///
/// | state          | condition | verdict   |
/// |----------------|-----------|-----------|
/// | `Running`      | strained  | Unhealthy |
/// | `Running`      | otherwise | Healthy   |
/// | `Exited`, `Dead` | any     | Unhealthy |
/// | any other      | any       | Stall     |
pub open spec fn classify(
    state: ContainerState,
    cpu_percent: Percent,
    memory_percent: Percent,
    restart_count: i64,
) -> HealthStatus {
    match state {
        ContainerState::Running => if strained(cpu_percent, memory_percent, restart_count) {
            HealthStatus::Unhealthy
        } else {
            HealthStatus::Healthy
        },
        ContainerState::Exited | ContainerState::Dead => HealthStatus::Unhealthy,
        _ => HealthStatus::Stall,
    }
}

/// A container that has exited or is dead is unhealthy, whatever its
/// counters say.
pub proof fn lemma_terminated_is_unhealthy(
    state: ContainerState,
    cpu_percent: Percent,
    memory_percent: Percent,
    restart_count: i64,
)
    requires
        state.is_terminated(),
    ensures
        classify(state, cpu_percent, memory_percent, restart_count) == HealthStatus::Unhealthy,
{
}

/// A paused container is stalled, whatever its counters say.
pub proof fn lemma_paused_is_stall(
    cpu_percent: Percent,
    memory_percent: Percent,
    restart_count: i64,
)
    ensures
        classify(ContainerState::Paused, cpu_percent, memory_percent, restart_count)
            == HealthStatus::Stall,
{
}

/// Only a running container is ever healthy, and only a running, exited or
/// dead one is ever unhealthy.
pub proof fn lemma_verdict_fits_state(
    state: ContainerState,
    cpu_percent: Percent,
    memory_percent: Percent,
    restart_count: i64,
)
    ensures
        classify(state, cpu_percent, memory_percent, restart_count) == HealthStatus::Healthy
            ==> state == ContainerState::Running,
        classify(state, cpu_percent, memory_percent, restart_count) == HealthStatus::Stall
            <==> state != ContainerState::Running && !state.is_terminated(),
{
}

impl ContainerHealth {
    /// The verdict on a container in state `container_state` with the given
    /// CPU use, memory use and number of restarts.
    pub fn get_health_status(
        container_state: &ContainerState,
        cpu_percent: Percent,
        memory_percent: Percent,
        restart_count: i64,
    ) -> (status: HealthStatus)
        ensures
            status == classify(*container_state, cpu_percent, memory_percent, restart_count),
    {
        match container_state {
            ContainerState::Running => {
                if restart_count > MAX_HEALTHY_RESTARTS || cpu_percent.exceeds(MAX_HEALTHY_PERCENT)
                    || memory_percent.exceeds(MAX_HEALTHY_PERCENT) {
                    HealthStatus::Unhealthy
                } else {
                    HealthStatus::Healthy
                }
            },
            ContainerState::Exited | ContainerState::Dead => HealthStatus::Unhealthy,
            ContainerState::Paused => HealthStatus::Stall,
            _ => HealthStatus::Stall,
        }
    }
}

} // verus!
