//! The rows that the durable store keeps of a health record: one in the
//! table of latest states, replaced on every write, and one appended to the
//! history.

use crate::percent::Percent;
use crate::record::{ContainerHealth, HealthView};
use vstd::prelude::*;

verus! {

/// The row of a container in the table of latest states. The store keeps
/// one such row per `name`; a new one replaces the old.
#[derive(Debug, PartialEq, Eq)]
pub struct LatestRow {
    pub id: String,
    pub name: String,
    pub container_state: String,
    pub status: String,
    pub last_updated: i64,
}

/// The mathematical content of a [`LatestRow`].
pub struct LatestRowView {
    pub id: Seq<char>,
    pub name: Seq<char>,
    pub container_state: Seq<char>,
    pub status: Seq<char>,
    pub last_updated: i64,
}

impl View for LatestRow {
    type V = LatestRowView;

    open spec fn view(&self) -> LatestRowView {
        LatestRowView {
            id: self.id@,
            name: self.name@,
            container_state: self.container_state@,
            status: self.status@,
            last_updated: self.last_updated,
        }
    }
}

impl Clone for LatestRow {
    fn clone(&self) -> (copy: Self)
        ensures
            copy == *self,
    {
        LatestRow {
            id: self.id.clone(),
            name: self.name.clone(),
            container_state: self.container_state.clone(),
            status: self.status.clone(),
            last_updated: self.last_updated,
        }
    }
}

/// A row of the history. Rows are only ever appended.
#[derive(Debug, PartialEq, Eq)]
pub struct HistoryRow {
    pub id: String,
    pub name: String,
    pub status: String,
    pub cpu_percent: Percent,
    pub memory_percent: Percent,
    pub restart_count: i64,
    pub uptime: String,
    pub timestamp: i64,
}

/// The mathematical content of a [`HistoryRow`].
pub struct HistoryRowView {
    pub id: Seq<char>,
    pub name: Seq<char>,
    pub status: Seq<char>,
    pub cpu_percent: Percent,
    pub memory_percent: Percent,
    pub restart_count: i64,
    pub uptime: Seq<char>,
    pub timestamp: i64,
}

impl View for HistoryRow {
    type V = HistoryRowView;

    open spec fn view(&self) -> HistoryRowView {
        HistoryRowView {
            id: self.id@,
            name: self.name@,
            status: self.status@,
            cpu_percent: self.cpu_percent,
            memory_percent: self.memory_percent,
            restart_count: self.restart_count,
            uptime: self.uptime@,
            timestamp: self.timestamp,
        }
    }
}

impl Clone for HistoryRow {
    fn clone(&self) -> (copy: Self)
        ensures
            copy == *self,
    {
        HistoryRow {
            id: self.id.clone(),
            name: self.name.clone(),
            status: self.status.clone(),
            cpu_percent: self.cpu_percent,
            memory_percent: self.memory_percent,
            restart_count: self.restart_count,
            uptime: self.uptime.clone(),
            timestamp: self.timestamp,
        }
    }
}

/// The row that a record leaves in the table of latest states.
pub open spec fn latest_row_of(health: HealthView) -> LatestRowView {
    LatestRowView {
        id: health.id,
        name: health.name,
        container_state: health.container_state.name(),
        status: health.status.label(),
        last_updated: health.last_updated,
    }
}

/// The row that a record adds to the history.
pub open spec fn history_row_of(health: HealthView) -> HistoryRowView {
    HistoryRowView {
        id: health.id,
        name: health.name,
        status: health.status.label(),
        cpu_percent: health.cpu_percent,
        memory_percent: health.memory_percent,
        restart_count: health.restart_count,
        uptime: health.uptime,
        timestamp: health.last_updated,
    }
}

impl ContainerHealth {
    /// The row that the record leaves in the table of latest states.
    pub fn latest_row(&self) -> (row: LatestRow)
        ensures
            row@ == latest_row_of(self@),
    {
        LatestRow {
            id: self.id.clone(),
            name: self.name.clone(),
            container_state: self.container_state.to_string(),
            status: self.status.to_string(),
            last_updated: self.last_updated,
        }
    }

    /// The row that the record adds to the history.
    pub fn history_row(&self) -> (row: HistoryRow)
        ensures
            row@ == history_row_of(self@),
    {
        HistoryRow {
            id: self.id.clone(),
            name: self.name.clone(),
            status: self.status.to_string(),
            cpu_percent: self.cpu_percent,
            memory_percent: self.memory_percent,
            restart_count: self.restart_count,
            uptime: self.uptime.clone(),
            timestamp: self.last_updated,
        }
    }
}

} // verus!
