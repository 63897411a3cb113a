//! Four-tier categorical scores and integer point scores.
use colored::ColoredString;
use colored::Colorize;
use vstd::prelude::*;

verus! {

#[verifier::external_type_specification]
#[verifier::external_body]
pub struct ExColoredString(ColoredString);

/// Relies on colored's `Colorize::green` for `&str`: the text with a green foreground.
#[verifier::external_body]
fn paint_green(text: &str) -> ColoredString {
    text.green()
}

/// Relies on colored's `Colorize::yellow` for `&str`: the text with a yellow foreground.
#[verifier::external_body]
fn paint_yellow(text: &str) -> ColoredString {
    text.yellow()
}

/// Relies on colored's `Colorize::red` for `&str`: the text with a red foreground.
#[verifier::external_body]
fn paint_red(text: &str) -> ColoredString {
    text.red()
}

/// Relies on colored's `Colorize::white` for `&str`: the text with a white foreground.
#[verifier::external_body]
fn paint_white(text: &str) -> ColoredString {
    text.white()
}

/// Relies on colored's `Colorize::bold` for `ColoredString`: adds the bold style.
#[verifier::external_body]
fn embolden(c: ColoredString) -> ColoredString {
    c.bold()
}

/// Bytes in one GiB.
pub const GIB: u64 = 1073741824;

/// A categorical rating of one hardware component.
#[derive(Debug, Clone, Copy, PartialEq, Eq, Structural)]
pub enum Score {
    Excellent,
    Good,
    Average,
    Poor,
    Unknown,
}

/// The position of a tier in the order Poor < Average < Good < Excellent
/// (Unknown ranks lowest).
pub open spec fn tier_rank(s: Score) -> int {
    match s {
        Score::Excellent => 4,
        Score::Good => 3,
        Score::Average => 2,
        Score::Poor => 1,
        Score::Unknown => 0,
    }
}

pub open spec fn cpu_tier(cores: u32, clock_mhz: u32) -> Score {
    if cores >= 8 && clock_mhz >= 3500 {
        Score::Excellent
    } else if cores >= 6 && clock_mhz >= 3000 {
        Score::Good
    } else if cores >= 4 {
        Score::Average
    } else {
        Score::Poor
    }
}

pub open spec fn ram_tier(total_gib: u64, avg_speed_mhz: u32) -> Score {
    if total_gib >= 32 && avg_speed_mhz >= 3200 {
        Score::Excellent
    } else if total_gib >= 16 && avg_speed_mhz >= 2666 {
        Score::Good
    } else if total_gib >= 8 {
        Score::Average
    } else {
        Score::Poor
    }
}

/// Whole GiB in a byte count, rounded down.
pub open spec fn gib_of(bytes: u64) -> int {
    bytes as int / GIB as int
}

pub open spec fn gpu_tier(vram_bytes: u64) -> Score {
    if gib_of(vram_bytes) >= 8 {
        Score::Excellent
    } else if gib_of(vram_bytes) >= 4 {
        Score::Good
    } else if gib_of(vram_bytes) >= 2 {
        Score::Average
    } else {
        Score::Poor
    }
}

/// Disk tiers use the 1000 / 500 / 250 GiB thresholds.
pub open spec fn disk_tier(size_bytes: u64) -> Score {
    if gib_of(size_bytes) >= 1000 {
        Score::Excellent
    } else if gib_of(size_bytes) >= 500 {
        Score::Good
    } else if gib_of(size_bytes) >= 250 {
        Score::Average
    } else {
        Score::Poor
    }
}

/// A point total, capped at the largest `u32`.
pub open spec fn capped(points: int) -> int {
    if points > u32::MAX as int {
        u32::MAX as int
    } else {
        points
    }
}

pub open spec fn cpu_points(cores: u32, clock_mhz: u32) -> int {
    capped(cores * 2 + clock_mhz / 40)
}

pub open spec fn ram_points(total_gib: u64, avg_speed_mhz: u32) -> int {
    capped(total_gib + avg_speed_mhz / 40)
}

pub open spec fn gpu_points(vram_bytes: u64) -> int {
    capped(gib_of(vram_bytes) * 8)
}

pub open spec fn disk_points(size_bytes: u64) -> int {
    capped(gib_of(size_bytes) / 10)
}

impl Score {
    /// The tier's name: "Excellent", "Good", "Average", "Poor" or "Unknown".
    pub fn label(&self) -> (r: &'static str)
        ensures
            *self == Score::Excellent ==> r@ == "Excellent"@,
            *self == Score::Good ==> r@ == "Good"@,
            *self == Score::Average ==> r@ == "Average"@,
            *self == Score::Poor ==> r@ == "Poor"@,
            *self == Score::Unknown ==> r@ == "Unknown"@,
    {
        match self {
            Score::Excellent => "Excellent",
            Score::Good => "Good",
            Score::Average => "Average",
            Score::Poor => "Poor",
            Score::Unknown => "Unknown",
        }
    }

    /// The tier's name, coloured for a terminal: green and bold for
    /// Excellent, green for Good, yellow for Average, red for Poor and white
    /// for Unknown.
    pub fn to_colored_string(&self) -> ColoredString {
        let text = self.label();
        match self {
            Score::Excellent => embolden(paint_green(text)),
            Score::Good => paint_green(text),
            Score::Average => paint_yellow(text),
            Score::Poor => paint_red(text),
            Score::Unknown => paint_white(text),
        }
    }
}

/// CPU tier, from the first threshold that the core count and clock meet.
pub fn score_cpu(cores: u32, clock_mhz: u32) -> (r: Score)
    ensures
        r == cpu_tier(cores, clock_mhz),
{
    if cores >= 8 && clock_mhz >= 3500 {
        Score::Excellent
    } else if cores >= 6 && clock_mhz >= 3000 {
        Score::Good
    } else if cores >= 4 {
        Score::Average
    } else {
        Score::Poor
    }
}

/// Memory tier, from total GiB and average module speed.
pub fn score_ram(total_capacity_gb: u64, avg_speed_mhz: u32) -> (r: Score)
    ensures
        r == ram_tier(total_capacity_gb, avg_speed_mhz),
{
    if total_capacity_gb >= 32 && avg_speed_mhz >= 3200 {
        Score::Excellent
    } else if total_capacity_gb >= 16 && avg_speed_mhz >= 2666 {
        Score::Good
    } else if total_capacity_gb >= 8 {
        Score::Average
    } else {
        Score::Poor
    }
}

/// GPU tier, from the whole GiB of video memory.
pub fn score_gpu(vram_bytes: u64) -> (r: Score)
    ensures
        r == gpu_tier(vram_bytes),
{
    let vram_gb = vram_bytes / GIB;
    if vram_gb >= 8 {
        Score::Excellent
    } else if vram_gb >= 4 {
        Score::Good
    } else if vram_gb >= 2 {
        Score::Average
    } else {
        Score::Poor
    }
}

/// Disk tier, from the whole GiB of capacity.
pub fn score_disk(size_bytes: u64) -> (r: Score)
    ensures
        r == disk_tier(size_bytes),
{
    let size_gb = size_bytes / GIB;
    if size_gb >= 1000 {
        Score::Excellent
    } else if size_gb >= 500 {
        Score::Good
    } else if size_gb >= 250 {
        Score::Average
    } else {
        Score::Poor
    }
}

/// Caps a point total at the largest `u32`.
fn cap_points(points: u64) -> (r: u32)
    ensures
        r == capped(points as int),
{
    if points > u32::MAX as u64 {
        u32::MAX
    } else {
        points as u32
    }
}

/// CPU points: two per core plus one per 40 MHz, rounded down.
pub fn calculate_cpu_score_num(cores: u32, clock_mhz: u32) -> (r: u32)
    ensures
        r == cpu_points(cores, clock_mhz),
{
    cap_points(cores as u64 * 2 + clock_mhz as u64 / 40)
}

/// Memory points: one per GiB plus one per 40 MHz of average speed.
pub fn calculate_ram_score_num(total_gb: u64, avg_speed_mhz: u32) -> (r: u32)
    ensures
        r == ram_points(total_gb, avg_speed_mhz),
{
    let speed_part = avg_speed_mhz as u64 / 40;
    if total_gb > u64::MAX - speed_part {
        u32::MAX
    } else {
        cap_points(total_gb + speed_part)
    }
}

/// GPU points: eight per whole GiB of video memory.
pub fn calculate_gpu_score_num(vram_bytes: u64) -> (r: u32)
    ensures
        r == gpu_points(vram_bytes),
{
    let vram_gb = vram_bytes / GIB;
    cap_points(vram_gb * 8)
}

/// Disk points: one per ten whole GiB of capacity.
pub fn calculate_disk_score_num(size_bytes: u64) -> (r: u32)
    ensures
        r == disk_points(size_bytes),
{
    let size_gb = size_bytes / GIB;
    cap_points(size_gb / 10)
}

/// More cores and a faster clock never lower a CPU's tier or its points;
/// exactly 8 cores at 3500 MHz rate Excellent.
pub proof fn lemma_cpu_score_monotonic(cores1: u32, clock1: u32, cores2: u32, clock2: u32)
    requires
        cores1 <= cores2,
        clock1 <= clock2,
    ensures
        tier_rank(cpu_tier(cores1, clock1)) <= tier_rank(cpu_tier(cores2, clock2)),
        cpu_points(cores1, clock1) <= cpu_points(cores2, clock2),
        cpu_tier(8, 3500) == Score::Excellent,
{
    assert(clock1 / 40 <= clock2 / 40) by (nonlinear_arith)
        requires
            clock1 <= clock2,
    ;
}

} // verus!
