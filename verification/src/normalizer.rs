//! Turning raw counters into percentages and readable sizes.

use crate::percent::{one_decimal, ratio_tenths, render_tenths, round_half_even, Percent};
use crate::record::ContainerHealth;
use crate::telemetry::ContainerStats;
use crate::text::{decimal, decimal_string};
use vstd::prelude::*;

verus! {

/// The number of bytes in one unit of each scale: B, KiB, MiB, GiB, TiB.
pub open spec fn unit_size(scale: nat) -> nat {
    if scale == 0 {
        1
    } else if scale == 1 {
        1024
    } else if scale == 2 {
        1024 * 1024
    } else if scale == 3 {
        1024 * 1024 * 1024
    } else {
        1024 * 1024 * 1024 * 1024
    }
}

/// The name of the unit of each scale.
pub open spec fn unit_name(scale: nat) -> Seq<char> {
    if scale == 0 {
        "B"@
    } else if scale == 1 {
        "KiB"@
    } else if scale == 2 {
        "MiB"@
    } else if scale == 3 {
        "GiB"@
    } else {
        "TiB"@
    }
}

/// The scale a byte count is shown in: the largest unit, up to TiB, that
/// the count reaches.
pub open spec fn scale_of(bytes: nat) -> nat {
    if bytes < unit_size(1) {
        0
    } else if bytes < unit_size(2) {
        1
    } else if bytes < unit_size(3) {
        2
    } else if bytes < unit_size(4) {
        3
    } else {
        4
    }
}

/// The text of a byte count: the exact count in bytes below 1024, else the
/// count in its unit, rounded half to even to one digit after the point.
pub open spec fn bytes_text(bytes: nat) -> Seq<char> {
    let scale = scale_of(bytes);
    if scale == 0 {
        decimal(bytes) + unit_name(0)
    } else {
        one_decimal(round_half_even(bytes * 10, unit_size(scale))) + unit_name(scale)
    }
}

/// CPU use in percent: the share of the system's CPU time that the
/// container used between two readings, times the number of CPUs.
/// Zero unless both the system's and the container's time advanced.
pub open spec fn cpu_percent_of(
    cpu_usage_total: u64,
    previous_cpu_usage_total: u64,
    system_cpu_delta: i64,
    per_cpu_count: Option<u32>,
) -> Percent {
    let cpu_delta = cpu_usage_total - previous_cpu_usage_total;
    let cpus: int = match per_cpu_count {
        Some(n) => n as int,
        None => 1,
    };
    if system_cpu_delta > 0 && cpu_delta > 0 {
        Percent::of((cpu_delta * cpus * 100) as nat, system_cpu_delta as nat)
    } else {
        Percent::of(0, 1)
    }
}

/// Memory use in percent of the limit. A limit of zero counts as one.
pub open spec fn memory_percent_of(usage_bytes: u64, limit_bytes: u64) -> Percent {
    let limit: nat = if limit_bytes == 0 {
        1
    } else {
        limit_bytes as nat
    };
    Percent::of(usage_bytes as nat * 100, limit)
}

/// A count that holds 1024 units of a scale reaches the next unit.
proof fn lemma_reaches_next_unit(bytes: u64, scale: u8)
    requires
        scale < 4,
        bytes as nat / unit_size(scale as nat) >= 1024,
    ensures
        bytes >= unit_size(scale as nat + 1),
        unit_size(scale as nat + 1) == unit_size(scale as nat) * 1024,
{
    let b = bytes as nat;
    if scale == 2 {
        assert(unit_size(2) == 1048576 && b / 1048576 == b / unit_size(2));
    } else if scale == 3 {
        assert(unit_size(3) == 1073741824 && b / 1073741824 == b / unit_size(3));
    }
}

/// A count that holds fewer than 1024 units of a scale is below the next
/// unit.
proof fn lemma_stays_below_next_unit(bytes: u64, scale: u8)
    requires
        scale < 4,
        bytes as nat / unit_size(scale as nat) < 1024,
    ensures
        bytes < unit_size(scale as nat + 1),
{
    let b = bytes as nat;
    if scale == 2 {
        assert(unit_size(2) == 1048576 && b / 1048576 == b / unit_size(2));
    } else if scale == 3 {
        assert(unit_size(3) == 1073741824 && b / 1073741824 == b / unit_size(3));
    }
}

/// The name of the unit of a scale.
fn unit_label(scale: u8) -> (s: &'static str)
    requires
        scale <= 4,
    ensures
        s@ == unit_name(scale as nat),
{
    match scale {
        0 => "B",
        1 => "KiB",
        2 => "MiB",
        3 => "GiB",
        _ => "TiB",
    }
}

impl ContainerHealth {
    /// CPU use of the container in percent, from one sample of its counters.
    pub fn calculate_cpu_percent(stats: &ContainerStats) -> (percent: Percent)
        ensures
            percent == cpu_percent_of(
                stats.cpu_usage_total,
                stats.previous_cpu_usage_total,
                stats.system_cpu_delta,
                stats.per_cpu_count,
            ),
            stats.system_cpu_delta <= 0 || stats.cpu_usage_total <= stats.previous_cpu_usage_total
                ==> percent == Percent::of(0, 1),
    {
        let cpus: u32 = match stats.per_cpu_count {
            Some(n) => n,
            None => 1,
        };
        if stats.system_cpu_delta > 0 && stats.cpu_usage_total > stats.previous_cpu_usage_total {
            let cpu_delta: u64 = stats.cpu_usage_total - stats.previous_cpu_usage_total;
            assert((cpu_delta as u128) * (cpus as u128) <= u64::MAX * u32::MAX)
                by (nonlinear_arith);
            let weighted: u128 = (cpu_delta as u128) * (cpus as u128);
            let numer: u128 = weighted * 100;
            assert(numer == (stats.cpu_usage_total - stats.previous_cpu_usage_total) * (cpus
                as int) * 100) by (nonlinear_arith)
                requires
                    numer == (cpu_delta as int) * (cpus as int) * 100,
                    cpu_delta == stats.cpu_usage_total - stats.previous_cpu_usage_total,
            ;
            Percent::new(numer, stats.system_cpu_delta as u64).unwrap()
        } else {
            Percent::zero()
        }
    }

    /// Memory use of the container: the amount as a readable size, and its
    /// share of the limit in percent.
    pub fn calculate_memory_stats(stats: &ContainerStats) -> (usage: (String, Percent))
        ensures
            usage.0@ == bytes_text(stats.memory_usage_bytes as nat),
            usage.1 == memory_percent_of(stats.memory_usage_bytes, stats.memory_limit_bytes),
            0 < stats.memory_limit_bytes && stats.memory_usage_bytes <= stats.memory_limit_bytes
                ==> !usage.1.above(100),
    {
        let limit: u64 = if stats.memory_limit_bytes == 0 {
            1
        } else {
            stats.memory_limit_bytes
        };
        let numer: u128 = (stats.memory_usage_bytes as u128) * 100;
        let percent = Percent::new(numer, limit).unwrap();
        proof {
            Percent::lemma_of_parts(numer as nat, limit as nat);
        }
        (ContainerHealth::format_bytes(stats.memory_usage_bytes), percent)
    }

    /// A byte count as a readable size in binary units, such as `1.5KiB`.
    pub fn format_bytes(bytes: u64) -> (s: String)
        ensures
            s@ == bytes_text(bytes as nat),
    {
        let mut unit: u64 = 1;
        let mut scale: u8 = 0;
        while scale < 4 && bytes / unit >= 1024
            invariant
                scale <= 4,
                unit == unit_size(scale as nat),
                bytes >= unit || scale == 0,
                scale_of(bytes as nat) >= scale,
            decreases 4 - scale,
        {
            proof {
                lemma_reaches_next_unit(bytes, scale);
            }
            unit = unit * 1024;
            scale = scale + 1;
        }
        proof {
            if scale < 4 {
                lemma_stays_below_next_unit(bytes, scale);
            }
        }
        if scale == 0 {
            let mut out = decimal_string(bytes as u128);
            out.append(unit_label(0));
            out
        } else {
            let mut out = render_tenths(ratio_tenths(bytes as u128, unit));
            out.append(unit_label(scale));
            out
        }
    }
}

} // verus!
