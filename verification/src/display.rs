//! The line of text that reports a health record.

use crate::record::{ContainerHealth, HealthView};
use crate::text::{signed_decimal, signed_decimal_string};
use vstd::prelude::*;

verus! {

/// What is put in front of the line of a record that came from the cache.
pub open spec fn cache_note() -> Seq<char> {
    "(from cache) "@
}

/// The line that reports `health` at `now` (seconds since the Unix epoch):
/// the mark of the state, the name, the verdict, CPU use, memory use,
/// restarts, uptime, and the age of the record in seconds.
pub open spec fn line_of(health: HealthView, now: i64) -> Seq<char> {
    health.container_state.mark() + " "@ + health.name + " "@ + health.status.label()
        + " | CPU: "@ + health.cpu_percent.text() + "% | Mem: "@ + health.memory_usage + " ("@
        + health.memory_percent.text() + "%) | Restarts: "@ + signed_decimal(
        health.restart_count as int,
    ) + " | Uptime: "@ + health.uptime + " | Updated: "@ + signed_decimal(
        now - health.last_updated,
    ) + "s ago"@
}

/// The line shown for a record: a record that came from the cache is marked
/// as such.
pub open spec fn report_of(health: HealthView, from_cache: bool, now: i64) -> Seq<char> {
    if from_cache {
        cache_note() + line_of(health, now)
    } else {
        line_of(health, now)
    }
}

impl ContainerHealth {
    /// The line that reports the record at `now` (seconds since the Unix
    /// epoch).
    pub fn describe(&self, now: i64) -> (line: String)
        ensures
            line@ == line_of(self@, now),
    {
        let mut out = String::from_str(self.container_state.symbol());
        out.append(" ");
        out.append(self.name.as_str());
        out.append(" ");
        out.append(self.status.as_str());
        out.append(" | CPU: ");
        let cpu = self.cpu_percent.to_string();
        out.append(cpu.as_str());
        out.append("% | Mem: ");
        out.append(self.memory_usage.as_str());
        out.append(" (");
        let memory = self.memory_percent.to_string();
        out.append(memory.as_str());
        out.append("%) | Restarts: ");
        let restarts = signed_decimal_string(self.restart_count as i128);
        out.append(restarts.as_str());
        out.append(" | Uptime: ");
        out.append(self.uptime.as_str());
        out.append(" | Updated: ");
        let age = signed_decimal_string((now as i128) - (self.last_updated as i128));
        out.append(age.as_str());
        out.append("s ago");
        out
    }

    /// The line shown for the record when it is emitted at `now`; a record
    /// that came from the cache is marked as such.
    pub fn report(&self, from_cache: bool, now: i64) -> (line: String)
        ensures
            line@ == report_of(self@, from_cache, now),
    {
        if from_cache {
            let mut out = String::from_str("(from cache) ");
            let line = self.describe(now);
            out.append(line.as_str());
            out
        } else {
            self.describe(now)
        }
    }
}

} // verus!
