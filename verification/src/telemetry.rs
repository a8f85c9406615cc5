//! What the container runtime reports about one container: the inspection
//! metadata and a single sample of its resource counters.

use vstd::prelude::*;

verus! {

/// The inspection metadata of a container.
#[derive(Debug, PartialEq, Eq)]
pub struct ContainerInspection {
    /// The status text of the runtime, such as `running`.
    pub state: String,
    /// How often the runtime has restarted the container.
    pub restart_count: i64,
    /// When the container was started, as an RFC 3339 date-time.
    pub started_at: String,
}

/// The mathematical content of a [`ContainerInspection`].
pub struct InspectionView {
    pub state: Seq<char>,
    pub restart_count: i64,
    pub started_at: Seq<char>,
}

impl View for ContainerInspection {
    type V = InspectionView;

    open spec fn view(&self) -> InspectionView {
        InspectionView {
            state: self.state@,
            restart_count: self.restart_count,
            started_at: self.started_at@,
        }
    }
}

impl Clone for ContainerInspection {
    fn clone(&self) -> (copy: Self)
        ensures
            copy == *self,
    {
        ContainerInspection {
            state: self.state.clone(),
            restart_count: self.restart_count,
            started_at: self.started_at.clone(),
        }
    }
}

/// One sample of the resource counters of a container.
#[derive(Debug, PartialEq, Eq)]
pub struct ContainerStats {
    /// The identifier the runtime gave the container; empty if unknown.
    pub runtime_id: String,
    /// Total CPU time the container has used.
    pub cpu_usage_total: u64,
    /// Total CPU time the container had used at the previous reading.
    pub previous_cpu_usage_total: u64,
    /// CPU time the whole system has used between the two readings.
    pub system_cpu_delta: i64,
    /// The number of per-CPU counters, if the runtime reports them.
    pub per_cpu_count: Option<u32>,
    /// Memory in use, in bytes.
    pub memory_usage_bytes: u64,
    /// The memory limit of the container, in bytes; zero if there is none.
    pub memory_limit_bytes: u64,
}

/// The mathematical content of a [`ContainerStats`].
pub struct StatsView {
    pub runtime_id: Seq<char>,
    pub cpu_usage_total: u64,
    pub previous_cpu_usage_total: u64,
    pub system_cpu_delta: i64,
    pub per_cpu_count: Option<u32>,
    pub memory_usage_bytes: u64,
    pub memory_limit_bytes: u64,
}

impl View for ContainerStats {
    type V = StatsView;

    open spec fn view(&self) -> StatsView {
        StatsView {
            runtime_id: self.runtime_id@,
            cpu_usage_total: self.cpu_usage_total,
            previous_cpu_usage_total: self.previous_cpu_usage_total,
            system_cpu_delta: self.system_cpu_delta,
            per_cpu_count: self.per_cpu_count,
            memory_usage_bytes: self.memory_usage_bytes,
            memory_limit_bytes: self.memory_limit_bytes,
        }
    }
}

impl Clone for ContainerStats {
    fn clone(&self) -> (copy: Self)
        ensures
            copy == *self,
    {
        ContainerStats {
            runtime_id: self.runtime_id.clone(),
            cpu_usage_total: self.cpu_usage_total,
            previous_cpu_usage_total: self.previous_cpu_usage_total,
            system_cpu_delta: self.system_cpu_delta,
            per_cpu_count: self.per_cpu_count,
            memory_usage_bytes: self.memory_usage_bytes,
            memory_limit_bytes: self.memory_limit_bytes,
        }
    }
}

} // verus!
