//! The ways a monitoring run can fail, and what each failure means for the
//! run.

use vstd::prelude::*;

verus! {

/// A failure met while monitoring.
#[derive(Clone, Copy, Debug, PartialEq, Eq, Structural)]
pub enum MonitorError {
    /// The container runtime cannot be reached.
    RuntimeUnavailable,
    /// The runtime knows no container of the given name.
    ContainerNotFound,
    /// A counter or a timestamp of the runtime is malformed.
    ParseError,
    /// The cache cannot be reached.
    CacheUnavailable,
    /// The durable store cannot be reached.
    StoreUnavailable,
}

impl MonitorError {
    /// Whether the failure ends the whole run. The others are contained: the
    /// run goes on with a default value or with the next container.
    pub open spec fn fatal(self) -> bool {
        self == MonitorError::RuntimeUnavailable || self == MonitorError::StoreUnavailable
    }

    /// Whether the failure ends the whole run.
    pub fn is_fatal(&self) -> (b: bool)
        ensures
            b == self.fatal(),
    {
        match self {
            MonitorError::RuntimeUnavailable => true,
            MonitorError::StoreUnavailable => true,
            _ => false,
        }
    }

    /// A short description of the failure.
    pub fn as_str(&self) -> (s: &'static str)
        ensures
            s@ == self.description(),
    {
        match self {
            MonitorError::RuntimeUnavailable => "container runtime is unavailable",
            MonitorError::ContainerNotFound => "container not found",
            MonitorError::ParseError => "malformed value from the runtime",
            MonitorError::CacheUnavailable => "cache is unavailable",
            MonitorError::StoreUnavailable => "durable store is unavailable",
        }
    }

    /// A short description of the failure.
    pub open spec fn description(self) -> Seq<char> {
        match self {
            MonitorError::RuntimeUnavailable => "container runtime is unavailable"@,
            MonitorError::ContainerNotFound => "container not found"@,
            MonitorError::ParseError => "malformed value from the runtime"@,
            MonitorError::CacheUnavailable => "cache is unavailable"@,
            MonitorError::StoreUnavailable => "durable store is unavailable"@,
        }
    }
}

} // verus!
