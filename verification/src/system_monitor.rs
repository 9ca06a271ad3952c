//! The machine's health: a traffic light for processor and memory load.
use vstd::prelude::*;
use vstd::string::*;

use crate::number::{decimal, show};
use crate::text::{cat3, opt_text};

verus! {

/// The traffic light.
#[derive(Clone, Copy, Debug, PartialEq, Eq, Structural)]
pub enum HealthStatus {
    Green,
    Yellow,
    Red,
    /// Nothing has been measured yet.
    Unknown,
}

/// A load in percent: rounded down, by which it is judged, and rounded to the
/// nearest, as it is shown.
#[derive(Clone, Copy, Debug, PartialEq, Eq, Structural)]
pub struct Percent {
    pub whole: u32,
    pub shown: u32,
}

/// What was measured, and what it means.
#[derive(Debug)]
pub struct SystemHealth {
    pub cpu: Percent,
    pub mem_used_mb: u64,
    pub mem_total_mb: u64,
    pub mem: Percent,
    pub status: HealthStatus,
    /// What is wrong, if something is.
    pub warning: Option<String>,
    /// When it was measured.
    pub updated_at: u64,
    pub cpu_count: u32,
}

impl Default for SystemHealth {
    /// Nothing has been measured yet.
    fn default() -> (r: Self)
        ensures
            r.cpu == (Percent { whole: 0, shown: 0 }),
            r.mem_used_mb == 0,
            r.mem_total_mb == 0,
            r.mem == (Percent { whole: 0, shown: 0 }),
            r.status == HealthStatus::Unknown,
            r.warning is None,
            r.updated_at == 0,
            r.cpu_count == 0,
    {
        SystemHealth {
            cpu: Percent { whole: 0, shown: 0 },
            mem_used_mb: 0,
            mem_total_mb: 0,
            mem: Percent { whole: 0, shown: 0 },
            status: HealthStatus::Unknown,
            warning: None,
            updated_at: 0,
            cpu_count: 0,
        }
    }
}

/// From here on the processor is overloaded, if it lasts.
pub const CPU_RED_PCT: u32 = 90;

/// From here on the processor is busy.
pub const CPU_YELLOW_PCT: u32 = 70;

/// So many looks in a row are lasting.
pub const CPU_RED_STREAK: u32 = 3;

/// From here on memory is too full, at once.
pub const MEM_RED_PCT: u32 = 85;

/// From here on memory is filling up.
pub const MEM_YELLOW_PCT: u32 = 70;

/// How many looks in a row the processor has been overloaded, after one more.
pub open spec fn streak_after(streak: int, cpu: Percent) -> int {
    if cpu.whole >= CPU_RED_PCT {
        streak + 1
    } else {
        0
    }
}

/// What the loads mean, with the number of looks in a row at which the processor
/// has been overloaded.
pub open spec fn judged(cpu: Percent, mem: Percent, streak: int) -> HealthStatus {
    if mem.whole >= MEM_RED_PCT || streak >= CPU_RED_STREAK {
        HealthStatus::Red
    } else if cpu.whole >= CPU_YELLOW_PCT || mem.whole >= MEM_YELLOW_PCT {
        HealthStatus::Yellow
    } else {
        HealthStatus::Green
    }
}

/// What is told of the loads.
pub open spec fn told(cpu: Percent, mem: Percent, streak: int) -> Option<Seq<char>> {
    let c = decimal(cpu.shown as nat);
    let m = decimal(mem.shown as nat);
    if mem.whole >= MEM_RED_PCT {
        Some("Memory at "@ + m + "% — risk of system unresponsive"@)
    } else if streak >= CPU_RED_STREAK {
        Some("CPU sustained at "@ + c + "% — encoder frame drops imminent"@)
    } else if cpu.whole >= CPU_RED_PCT {
        Some("CPU spike at "@ + c + "%"@)
    } else if cpu.whole >= CPU_YELLOW_PCT {
        Some("CPU at "@ + c + "%"@)
    } else if mem.whole >= MEM_YELLOW_PCT {
        Some("Memory at "@ + m + "%"@)
    } else {
        None
    }
}

/// What the loads mean and what is told of them. `streak` counts the looks in a row
/// at which the processor has been overloaded.
pub fn compute_status(cpu: Percent, mem: Percent, streak: &mut u32) -> (r: (
    HealthStatus,
    Option<String>,
))
    requires
        *old(streak) < u32::MAX,
    ensures
        *final(streak) == streak_after(*old(streak) as int, cpu),
        r.0 == judged(cpu, mem, *final(streak) as int),
        opt_text(r.1) == told(cpu, mem, *final(streak) as int),
{
    if cpu.whole >= CPU_RED_PCT {
        *streak = *streak + 1;
    } else {
        *streak = 0;
    }
    let c: String = show(cpu.shown as u64);
    let m: String = show(mem.shown as u64);
    if mem.whole >= MEM_RED_PCT {
        let text: String = cat3("Memory at ", m.as_str(), "% — risk of system unresponsive");
        return (HealthStatus::Red, Some(text));
    }
    if *streak >= CPU_RED_STREAK {
        let text: String = cat3(
            "CPU sustained at ",
            c.as_str(),
            "% — encoder frame drops imminent",
        );
        return (HealthStatus::Red, Some(text));
    }
    if cpu.whole >= CPU_RED_PCT {
        return (HealthStatus::Yellow, Some(cat3("CPU spike at ", c.as_str(), "%")));
    }
    if cpu.whole >= CPU_YELLOW_PCT {
        return (HealthStatus::Yellow, Some(cat3("CPU at ", c.as_str(), "%")));
    }
    if mem.whole >= MEM_YELLOW_PCT {
        return (HealthStatus::Yellow, Some(cat3("Memory at ", m.as_str(), "%")));
    }
    (HealthStatus::Green, None)
}

/// What was measured and what it means. Memory is given in bytes.
pub fn measure(
    cpu: Percent,
    mem: Percent,
    mem_used: u64,
    mem_total: u64,
    cpu_count: u32,
    now: u64,
    streak: &mut u32,
) -> (r: SystemHealth)
    requires
        *old(streak) < u32::MAX,
    ensures
        *final(streak) == streak_after(*old(streak) as int, cpu),
        r.cpu == cpu,
        r.mem == mem,
        r.mem_used_mb == mem_used / 1_048_576,
        r.mem_total_mb == mem_total / 1_048_576,
        r.status == judged(cpu, mem, *final(streak) as int),
        opt_text(r.warning) == told(cpu, mem, *final(streak) as int),
        r.updated_at == now,
        r.cpu_count == cpu_count,
{
    let (status, warning): (HealthStatus, Option<String>) = compute_status(cpu, mem, streak);
    SystemHealth {
        cpu,
        mem_used_mb: mem_used / 1_048_576,
        mem_total_mb: mem_total / 1_048_576,
        mem,
        status,
        warning,
        updated_at: now,
        cpu_count,
    }
}

/// How many looks in a row the processor has been overloaded, at the end of several.
pub open spec fn streak_over(loads: Seq<Percent>) -> int
    decreases loads.len(),
{
    if loads.len() == 0 {
        0
    } else {
        streak_after(streak_over(loads.drop_last()), loads.last())
    }
}

/// A short spike does not make the light red: if the processor was not overloaded
/// at one of the last three looks, memory decides.
pub proof fn spikes_are_not_red(loads: Seq<Percent>, mem: Percent, k: int)
    requires
        0 <= k < loads.len(),
        loads.len() - k <= CPU_RED_STREAK,
        loads[k].whole < CPU_RED_PCT,
    ensures
        judged(loads.last(), mem, streak_over(loads)) == HealthStatus::Red <==> mem.whole
            >= MEM_RED_PCT,
{
    streak_since(loads, k);
}

proof fn streak_since(loads: Seq<Percent>, k: int)
    requires
        0 <= k < loads.len(),
        loads[k].whole < CPU_RED_PCT,
    ensures
        streak_over(loads) <= loads.len() - 1 - k,
    decreases loads.len(),
{
    if k < loads.len() - 1 {
        streak_since(loads.drop_last(), k);
    }
}

/// The light is green if and only if nothing is told.
pub proof fn green_means_no_warning(cpu: Percent, mem: Percent, streak: int)
    requires
        streak > 0 ==> cpu.whole >= CPU_RED_PCT,
    ensures
        judged(cpu, mem, streak) == HealthStatus::Green <==> told(cpu, mem, streak) is None,
{
}

} // verus!
