//! Health assessment for containers: normalising raw runtime counters,
//! classifying health, and scheduling the cache-aside polling loop.
//!
//! Everything here is pure: callers perform the I/O (runtime queries, cache,
//! durable store, clock) and hand the library plain values.

pub mod cache;
pub mod classifier;
pub mod display;
pub mod error;
pub mod listing;
pub mod normalizer;
pub mod pass;
pub mod percent;
pub mod recompute;
pub mod record;
pub mod scheduler;
pub mod state;
pub mod store;
pub mod telemetry;
pub mod text;
pub mod uptime;

pub use cache::cache_key;
pub use error::MonitorError;
pub use listing::{check_docker_running, is_container_in_list, parse_container_names};
pub use percent::Percent;
pub use record::ContainerHealth;
pub use scheduler::{Action, Event, Phase, Scheduler, WATCH_INTERVAL_SECONDS};
pub use state::{ContainerState, HealthStatus};
pub use store::{HistoryRow, LatestRow};
pub use telemetry::{ContainerInspection, ContainerStats};
