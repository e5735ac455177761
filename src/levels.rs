use vstd::prelude::*;

verus! {

/// How alarming a reading is; the display picks a color for each level.
#[derive(Debug, Clone, Copy, PartialEq, Eq, Structural)]
pub enum Level {
    Normal,
    Elevated,
    Critical,
}

/// The level of a reading against two thresholds: normal up to `warn`,
/// elevated up to `crit`, critical above.
pub open spec fn level_of(value: int, warn: int, crit: int) -> Level {
    if value <= warn {
        Level::Normal
    } else if value <= crit {
        Level::Elevated
    } else {
        Level::Critical
    }
}

fn classify(value: u64, warn: u64, crit: u64) -> (r: Level)
    ensures
        r == level_of(value as int, warn as int, crit as int),
{
    if value <= warn {
        Level::Normal
    } else if value <= crit {
        Level::Elevated
    } else {
        Level::Critical
    }
}

/// Level of a usage percentage (CPU, disk): normal up to 70, elevated up
/// to 85.
pub fn usage_level(percentage: u64) -> (r: Level)
    ensures
        r == level_of(percentage as int, 70, 85),
{
    classify(percentage, 70, 85)
}

/// Level of a memory usage percentage: normal up to 70, elevated up to 90.
pub fn memory_level(percentage: u64) -> (r: Level)
    ensures
        r == level_of(percentage as int, 70, 90),
{
    classify(percentage, 70, 90)
}

/// Level of one process's CPU usage in hundredths of a percent: elevated
/// above 25%, critical above 50%.
pub fn process_cpu_level(cpu_usage: u64) -> (r: Level)
    ensures
        r == level_of(cpu_usage as int, 2500, 5000),
{
    classify(cpu_usage, 2500, 5000)
}

/// Level of one process's memory share in hundredths of a percent:
/// elevated above 5%, critical above 10%.
pub fn process_memory_level(memory_percent: u64) -> (r: Level)
    ensures
        r == level_of(memory_percent as int, 500, 1000),
{
    classify(memory_percent, 500, 1000)
}

/// Level of a CPU temperature in tenths of a degree: elevated above 70
/// degrees, critical above 80.
pub fn temperature_level(tenths: i64) -> (r: Level)
    ensures
        r == level_of(tenths as int, 700, 800),
{
    if tenths <= 700 {
        Level::Normal
    } else if tenths <= 800 {
        Level::Elevated
    } else {
        Level::Critical
    }
}

} // verus!
