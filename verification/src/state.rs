//! The runtime state a container reports and the health verdict derived
//! from it.

use crate::text::same_text;
use vstd::prelude::*;

verus! {

/// The state of a container, as its runtime reports it.
#[derive(Clone, Copy, Debug, PartialEq, Eq, Structural)]
pub enum ContainerState {
    Created,
    Running,
    Paused,
    Restarting,
    Exited,
    Stopped,
    Removing,
    Dead,
}

impl ContainerState {
    /// The lower-case name of the state.
    pub open spec fn name(self) -> Seq<char> {
        match self {
            ContainerState::Created => "created"@,
            ContainerState::Running => "running"@,
            ContainerState::Paused => "paused"@,
            ContainerState::Restarting => "restarting"@,
            ContainerState::Exited => "exited"@,
            ContainerState::Stopped => "stopped"@,
            ContainerState::Removing => "removing"@,
            ContainerState::Dead => "dead"@,
        }
    }

    /// The state a status text stands for. A text that names no state
    /// stands for `Stopped`.
    pub open spec fn of_status(status: Seq<char>) -> ContainerState {
        if status == "created"@ {
            ContainerState::Created
        } else if status == "running"@ {
            ContainerState::Running
        } else if status == "paused"@ {
            ContainerState::Paused
        } else if status == "restarting"@ {
            ContainerState::Restarting
        } else if status == "exited"@ {
            ContainerState::Exited
        } else if status == "removing"@ {
            ContainerState::Removing
        } else if status == "dead"@ {
            ContainerState::Dead
        } else {
            ContainerState::Stopped
        }
    }

    /// The mark shown in front of a container in this state.
    pub open spec fn mark(self) -> Seq<char> {
        match self {
            ContainerState::Running => "🟢"@,
            ContainerState::Exited => "⭕"@,
            ContainerState::Paused => "🟡"@,
            ContainerState::Restarting => "🔁"@,
            _ => "⚪"@,
        }
    }

    /// Whether the container has stopped for good: `Exited` or `Dead`.
    pub open spec fn is_terminated(self) -> bool {
        self == ContainerState::Exited || self == ContainerState::Dead
    }

    /// The lower-case name of the state.
    pub fn as_str(&self) -> (s: &'static str)
        ensures
            s@ == self.name(),
    {
        match self {
            ContainerState::Created => "created",
            ContainerState::Running => "running",
            ContainerState::Paused => "paused",
            ContainerState::Restarting => "restarting",
            ContainerState::Exited => "exited",
            ContainerState::Stopped => "stopped",
            ContainerState::Removing => "removing",
            ContainerState::Dead => "dead",
        }
    }

    /// The lower-case name of the state, as an owned text.
    pub fn to_string(&self) -> (s: String)
        ensures
            s@ == self.name(),
    {
        String::from_str(self.as_str())
    }

    /// Reads a state from the status text of the runtime. A text that names
    /// no state reads as `Stopped`.
    pub fn from_status(status: &str) -> (state: ContainerState)
        ensures
            state == ContainerState::of_status(status@),
    {
        if same_text(status, "created") {
            ContainerState::Created
        } else if same_text(status, "running") {
            ContainerState::Running
        } else if same_text(status, "paused") {
            ContainerState::Paused
        } else if same_text(status, "restarting") {
            ContainerState::Restarting
        } else if same_text(status, "exited") {
            ContainerState::Exited
        } else if same_text(status, "removing") {
            ContainerState::Removing
        } else if same_text(status, "dead") {
            ContainerState::Dead
        } else {
            ContainerState::Stopped
        }
    }

    /// The mark shown in front of a container in this state.
    pub fn symbol(&self) -> (s: &'static str)
        ensures
            s@ == self.mark(),
    {
        match self {
            ContainerState::Running => "🟢",
            ContainerState::Exited => "⭕",
            ContainerState::Paused => "🟡",
            ContainerState::Restarting => "🔁",
            _ => "⚪",
        }
    }

    /// Whether the container has stopped for good: `Exited` or `Dead`.
    pub fn terminated(&self) -> (b: bool)
        ensures
            b == self.is_terminated(),
    {
        match self {
            ContainerState::Exited => true,
            ContainerState::Dead => true,
            _ => false,
        }
    }

    /// Reading the name of a state gives the state back.
    pub proof fn lemma_name_round_trip(self)
        ensures
            ContainerState::of_status(self.name()) == self,
    {
        reveal_strlit("created");
        reveal_strlit("running");
        reveal_strlit("paused");
        reveal_strlit("restarting");
        reveal_strlit("exited");
        reveal_strlit("stopped");
        reveal_strlit("removing");
        reveal_strlit("dead");
        let n = self.name();
        match self {
            ContainerState::Created => {
                assert(n.len() == 7 && n[0] == 'c');
            },
            ContainerState::Running => {
                assert(n.len() == 7 && n[0] == 'r' && n[1] == 'u');
            },
            ContainerState::Paused => {
                assert(n.len() == 6 && n[0] == 'p');
            },
            ContainerState::Restarting => {
                assert(n.len() == 10);
            },
            ContainerState::Exited => {
                assert(n.len() == 6 && n[0] == 'e');
            },
            ContainerState::Stopped => {
                assert(n.len() == 7 && n[0] == 's');
            },
            ContainerState::Removing => {
                assert(n.len() == 8);
            },
            ContainerState::Dead => {
                assert(n.len() == 4);
            },
        }
    }
}

/// The verdict on a container's health.
#[derive(Clone, Copy, Debug, PartialEq, Eq, Structural)]
pub enum HealthStatus {
    Healthy,
    Unhealthy,
    Stall,
}

impl HealthStatus {
    /// The text shown for the verdict.
    pub open spec fn label(self) -> Seq<char> {
        match self {
            HealthStatus::Healthy => "💚 Healthy"@,
            HealthStatus::Unhealthy => "🔴 Unhealthy"@,
            HealthStatus::Stall => "⚫ Stall"@,
        }
    }

    /// The text shown for the verdict.
    pub fn as_str(&self) -> (s: &'static str)
        ensures
            s@ == self.label(),
    {
        match self {
            HealthStatus::Healthy => "💚 Healthy",
            HealthStatus::Unhealthy => "🔴 Unhealthy",
            HealthStatus::Stall => "⚫ Stall",
        }
    }

    /// The text shown for the verdict, as an owned text.
    pub fn to_string(&self) -> (s: String)
        ensures
            s@ == self.label(),
    {
        String::from_str(self.as_str())
    }
}

} // verus!
