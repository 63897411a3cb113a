//! Memory modules, and their aggregation into one scored summary.
use crate::scoring::{calculate_ram_score_num, ram_points, ram_tier, score_ram, Score, GIB};
use vstd::prelude::*;

verus! {

/// One populated memory module.
#[derive(Debug, Clone)]
pub struct MemoryInfo {
    pub capacity: u64,
    pub speed: u32,
    pub manufacturer: String,
    pub part_number: String,
    pub configured_clock_speed: Option<u32>,
    pub device_locator: String,
    pub configured_voltage: Option<u32>,
    pub min_voltage: Option<u32>,
    pub max_voltage: Option<u32>,
    pub serial_number: Option<String>,
    pub bank_label: Option<String>,
    pub data_width: Option<u16>,
    pub total_width: Option<u16>,
    pub form_factor: Option<u16>,
    pub status: Option<String>,
}

/// The modules with their total size, average speed, tier and points.
#[derive(Debug, Clone)]
pub struct ScoredRam {
    pub info: Vec<MemoryInfo>,
    pub total_gb: u64,
    pub avg_speed: u32,
    pub score: Score,
    pub score_num: u32,
}

/// A module's effective speed: the configured clock where it is known and
/// not zero, else the rated speed.
pub open spec fn module_speed(m: MemoryInfo) -> u32 {
    match m.configured_clock_speed {
        Some(c) => if c > 0 {
            c
        } else {
            m.speed
        },
        None => m.speed,
    }
}

pub open spec fn total_capacity(mods: Seq<MemoryInfo>) -> int
    decreases mods.len(),
{
    if mods.len() == 0 {
        0
    } else {
        total_capacity(mods.drop_last()) + mods.last().capacity
    }
}

pub open spec fn speed_sum(mods: Seq<MemoryInfo>) -> int
    decreases mods.len(),
{
    if mods.len() == 0 {
        0
    } else {
        speed_sum(mods.drop_last()) + module_speed(mods.last())
    }
}

/// Whole GiB of all modules together (capped at the largest `u64`).
pub open spec fn total_gib(mods: Seq<MemoryInfo>) -> int {
    let g = total_capacity(mods) / GIB as int;
    if g > u64::MAX as int {
        u64::MAX as int
    } else {
        g
    }
}

/// The average effective speed, rounded down; 0 without modules.
pub open spec fn average_speed(mods: Seq<MemoryInfo>) -> int {
    if mods.len() == 0 {
        0
    } else {
        speed_sum(mods) / mods.len() as int
    }
}

/// A module's effective speed.
pub fn effective_speed(m: &MemoryInfo) -> (r: u32)
    ensures
        r == module_speed(*m),
{
    match m.configured_clock_speed {
        Some(c) => if c > 0 {
            c
        } else {
            m.speed
        },
        None => m.speed,
    }
}

/// Sums the modules' sizes and averages their effective speeds, then rates
/// the result.
pub fn aggregate_memory(modules: Vec<MemoryInfo>) -> (r: ScoredRam)
    ensures
        r.info == modules,
        r.total_gb == total_gib(modules@),
        r.avg_speed == average_speed(modules@),
        r.score == ram_tier(r.total_gb, r.avg_speed),
        r.score_num == ram_points(r.total_gb, r.avg_speed),
{
    let mut total: u128 = 0;
    let mut speeds: u128 = 0;
    let mut i: usize = 0;
    let n = modules.len();
    assert(modules@.subrange(0, 0) =~= Seq::<MemoryInfo>::empty());
    while i < n
        invariant
            n == modules@.len(),
            i <= n,
            total == total_capacity(modules@.subrange(0, i as int)),
            speeds == speed_sum(modules@.subrange(0, i as int)),
            total <= i * (u64::MAX as int),
            speeds <= i * (u32::MAX as int),
        decreases n - i,
    {
        let m = &modules[i];
        assert(modules@.subrange(0, i + 1).drop_last() =~= modules@.subrange(0, i as int));
        let s = effective_speed(m);
        proof {
            assert((i + 1) * (u64::MAX as int) == i * (u64::MAX as int) + u64::MAX) by (nonlinear_arith);
            assert((i + 1) * (u32::MAX as int) == i * (u32::MAX as int) + u32::MAX) by (nonlinear_arith);
            assert(i * (u64::MAX as int) <= (usize::MAX as int) * (u64::MAX as int)) by (nonlinear_arith)
                requires i <= usize::MAX;
        }
        total = total + m.capacity as u128;
        speeds = speeds + s as u128;
        i += 1;
    }
    assert(modules@.subrange(0, n as int) =~= modules@);
    let gib = total / (GIB as u128);
    let total_gb: u64 = if gib > u64::MAX as u128 {
        u64::MAX
    } else {
        gib as u64
    };
    let avg_speed: u32 = if n == 0 {
        0
    } else {
        proof {
            assert((speeds as int) / (n as int) <= u32::MAX as int) by (nonlinear_arith)
                requires (speeds as int) <= n * (u32::MAX as int), n > 0;
        }
        (speeds / (n as u128)) as u32
    };
    let score = score_ram(total_gb, avg_speed);
    let score_num = calculate_ram_score_num(total_gb, avg_speed);
    ScoredRam { info: modules, total_gb, avg_speed, score, score_num }
}

} // verus!
