//! The health record: one immutable snapshot of a container.

use crate::percent::Percent;
use crate::state::{ContainerState, HealthStatus};
use vstd::prelude::*;

verus! {

/// A snapshot of one container's health. `name` identifies the container in
/// the cache, in the store and in the history.
#[derive(Debug, PartialEq, Eq)]
pub struct ContainerHealth {
    /// The identifier the runtime gave the container; empty if unknown.
    pub id: String,
    pub name: String,
    pub status: HealthStatus,
    pub container_state: ContainerState,
    pub restart_count: i64,
    pub cpu_percent: Percent,
    /// Memory in use, scaled to a binary unit, such as `1.5KiB`.
    pub memory_usage: String,
    pub memory_percent: Percent,
    /// How long the container has been up, such as `2d 3h`.
    pub uptime: String,
    /// When the snapshot was taken, in seconds since the Unix epoch.
    pub last_updated: i64,
}

/// The mathematical content of a [`ContainerHealth`].
pub struct HealthView {
    pub id: Seq<char>,
    pub name: Seq<char>,
    pub status: HealthStatus,
    pub container_state: ContainerState,
    pub restart_count: i64,
    pub cpu_percent: Percent,
    pub memory_usage: Seq<char>,
    pub memory_percent: Percent,
    pub uptime: Seq<char>,
    pub last_updated: i64,
}

impl View for ContainerHealth {
    type V = HealthView;

    open spec fn view(&self) -> HealthView {
        HealthView {
            id: self.id@,
            name: self.name@,
            status: self.status,
            container_state: self.container_state,
            restart_count: self.restart_count,
            cpu_percent: self.cpu_percent,
            memory_usage: self.memory_usage@,
            memory_percent: self.memory_percent,
            uptime: self.uptime@,
            last_updated: self.last_updated,
        }
    }
}

impl Clone for ContainerHealth {
    fn clone(&self) -> (copy: Self)
        ensures
            copy == *self,
    {
        ContainerHealth {
            id: self.id.clone(),
            name: self.name.clone(),
            status: self.status,
            container_state: self.container_state,
            restart_count: self.restart_count,
            cpu_percent: self.cpu_percent,
            memory_usage: self.memory_usage.clone(),
            memory_percent: self.memory_percent,
            uptime: self.uptime.clone(),
            last_updated: self.last_updated,
        }
    }
}

} // verus!
