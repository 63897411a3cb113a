//! The CPU probe: the fast source first, then the detailed source, with
//! cache sizes patched from the cache inventory.
use crate::errors::{ProbeError, QueryError};
use crate::scoring::{calculate_cpu_score_num, cpu_points, cpu_tier, score_cpu, Score};
use vstd::prelude::*;

verus! {

/// One processor package.
#[derive(Debug, Clone)]
pub struct CpuInfo {
    pub name: String,
    pub max_clock_speed: u32,
    pub number_of_cores: u32,
    pub number_of_logical_processors: u32,
    pub manufacturer: String,
    pub l2_cache_size: Option<u32>,
    pub l3_cache_size: Option<u32>,
    pub socket_designation: Option<String>,
    pub description: Option<String>,
    pub virtualization_firmware_enabled: Option<bool>,
}

/// One logical core as the fast source reports it.
#[derive(Debug, Clone)]
pub struct FastCpuCore {
    pub brand: String,
    pub frequency_mhz: u64,
    pub vendor_id: String,
}

/// What the fast source reports about the processors: one entry per logical
/// core, and the physical core count where it knows it.
#[derive(Debug, Clone)]
pub struct FastCpuReport {
    pub cores: Vec<FastCpuCore>,
    pub physical_core_count: Option<usize>,
}

/// A cache record of the detailed source.
#[derive(Debug, Clone, Copy)]
pub struct CacheRecord {
    pub level: u16,
    pub max_cache_size: Option<u32>,
}

/// A processor package with its tier and points.
#[derive(Debug, Clone)]
pub struct ScoredCpu {
    pub info: CpuInfo,
    pub score: Score,
    pub score_num: u32,
}

/// What the CPU probe does next.
#[derive(Debug)]
pub enum CpuStep {
    /// Initialise the detailed source and query its processor records.
    QueryDetailed,
    /// Query the cache inventory to patch the cache sizes of these records.
    QueryCaches(Vec<CpuInfo>),
    /// The probe is over.
    Finished(Result<Vec<CpuInfo>, ProbeError>),
}

pub open spec fn saturate(n: int) -> u32 {
    if n > u32::MAX as int {
        u32::MAX
    } else {
        n as u32
    }
}

/// The single package record built from the fast source: the first core's
/// brand, frequency and vendor, the physical core count (the logical count
/// where unknown) and the logical core count, each capped at the largest
/// `u32`.
pub open spec fn fast_package(report: FastCpuReport, c: CpuInfo) -> bool {
    let first = report.cores@[0];
    &&& c.name == first.brand
    &&& c.max_clock_speed == saturate(first.frequency_mhz as int)
    &&& c.number_of_cores == saturate(
        match report.physical_core_count {
            Some(n) => n as int,
            None => report.cores@.len() as int,
        },
    )
    &&& c.number_of_logical_processors == saturate(report.cores@.len() as int)
    &&& c.manufacturer == first.vendor_id
    &&& c.l2_cache_size is None
    &&& c.l3_cache_size is None
    &&& c.socket_designation is None
    &&& c.description is None
    &&& c.virtualization_firmware_enabled is None
}

/// A record lacks a cache size where L2 or L3 is absent or zero.
pub open spec fn lacks_cache(c: CpuInfo) -> bool {
    c.l2_cache_size is None || c.l2_cache_size == Some(0u32) || c.l3_cache_size is None
        || c.l3_cache_size == Some(0u32)
}

pub open spec fn any_lacks_cache(cpus: Seq<CpuInfo>) -> bool {
    exists|i: int| 0 <= i < cpus.len() && lacks_cache(#[trigger] cpus[i])
}

/// The sizes that the cache records report, in order.
pub open spec fn reported_sizes(caches: Seq<CacheRecord>) -> Seq<u32>
    decreases caches.len(),
{
    if caches.len() == 0 {
        Seq::empty()
    } else {
        let prev = reported_sizes(caches.drop_last());
        match caches.last().max_cache_size {
            Some(n) => prev.push(n),
            None => prev,
        }
    }
}

/// `a` and `b` are the first two of `s` sorted in descending order.
pub open spec fn top_two(s: Seq<u32>, a: u32, b: u32) -> bool {
    exists|i: int, j: int|
        0 <= i < s.len() && 0 <= j < s.len() && i != j && s[i] == a && s[j] == b && forall|k: int|
            0 <= k < s.len() ==> #[trigger] s[k] <= a && (k != i ==> s[k] <= b)
}

/// `a` is the largest of `s`.
pub open spec fn is_largest(s: Seq<u32>, a: u32) -> bool {
    (exists|i: int| 0 <= i < s.len() && s[i] == a) && forall|k: int|
        0 <= k < s.len() ==> #[trigger] s[k] <= a
}

/// The largest and second-largest sizes, as far as there are any.
pub open spec fn ranked(s: Seq<u32>, first: Option<u32>, second: Option<u32>) -> bool {
    &&& (s.len() == 0 <==> first is None)
    &&& (s.len() <= 1 <==> second is None)
    &&& s.len() == 1 ==> is_largest(s, first->Some_0)
    &&& s.len() >= 2 ==> top_two(s, first->Some_0, second->Some_0)
}

/// A zero or absent size is replaced by `fill`, where there is one.
pub open spec fn patched(size: Option<u32>, fill: Option<u32>) -> Option<u32> {
    if (size is None || size == Some(0u32)) && fill is Some {
        fill
    } else {
        size
    }
}

/// The record with L3 patched from the largest cache and L2 from the second
/// largest.
pub open spec fn with_caches(c: CpuInfo, first: Option<u32>, second: Option<u32>) -> CpuInfo {
    CpuInfo {
        l3_cache_size: patched(c.l3_cache_size, first),
        l2_cache_size: patched(c.l2_cache_size, second),
        ..c
    }
}

fn saturate_usize(n: usize) -> (r: u32)
    ensures
        r == saturate(n as int),
{
    if n > u32::MAX as usize {
        u32::MAX
    } else {
        n as u32
    }
}

/// The package record built from the fast source, or none where it reports
/// no cores.
pub fn aggregate_fast_cpu(report: &FastCpuReport) -> (r: Option<CpuInfo>)
    ensures
        report.cores@.len() == 0 <==> r is None,
        r is Some ==> fast_package(*report, r->Some_0),
{
    if report.cores.len() == 0 {
        return None;
    }
    let first = &report.cores[0];
    let clock = if first.frequency_mhz > u32::MAX as u64 {
        u32::MAX
    } else {
        first.frequency_mhz as u32
    };
    let physical = match report.physical_core_count {
        Some(n) => n,
        None => report.cores.len(),
    };
    Some(
        CpuInfo {
            name: first.brand.clone(),
            max_clock_speed: clock,
            number_of_cores: saturate_usize(physical),
            number_of_logical_processors: saturate_usize(report.cores.len()),
            manufacturer: first.vendor_id.clone(),
            l2_cache_size: None,
            l3_cache_size: None,
            socket_designation: None,
            description: None,
            virtualization_firmware_enabled: None,
        },
    )
}

/// The first step: with cores reported by the fast source the probe is over
/// with one package record; with none it turns to the detailed source.
pub fn cpu_after_fast(report: FastCpuReport) -> (r: CpuStep)
    ensures
        report.cores@.len() == 0 ==> r is QueryDetailed,
        report.cores@.len() > 0 ==> r is Finished && r->Finished_0 is Ok && r->Finished_0->Ok_0@.len()
            == 1 && fast_package(report, r->Finished_0->Ok_0@[0]),
{
    match aggregate_fast_cpu(&report) {
        None => CpuStep::QueryDetailed,
        Some(info) => CpuStep::Finished(Ok(vec![info])),
    }
}

/// Whether any record lacks a cache size.
pub fn needs_cache_query(cpus: &Vec<CpuInfo>) -> (r: bool)
    ensures
        r == any_lacks_cache(cpus@),
{
    let mut i: usize = 0;
    while i < cpus.len()
        invariant
            i <= cpus@.len(),
            forall|k: int| 0 <= k < i ==> !lacks_cache(#[trigger] cpus@[k]),
        decreases cpus@.len() - i,
    {
        let c = &cpus[i];
        let l2_missing = match c.l2_cache_size {
            Some(n) => n == 0,
            None => true,
        };
        let l3_missing = match c.l3_cache_size {
            Some(n) => n == 0,
            None => true,
        };
        if l2_missing || l3_missing {
            assert(lacks_cache(cpus@[i as int]));
            return true;
        }
        i += 1;
    }
    false
}

/// The second step, on the detailed source's answer. A failure to reach it,
/// or an empty answer, leaves no source: the probe never reports an empty
/// list. Records that lack a cache size lead to the cache query.
pub fn cpu_after_detailed(processors: Result<Vec<CpuInfo>, ProbeError>) -> (r: CpuStep)
    ensures
        (processors is Err || processors->Ok_0@.len() == 0) ==> r == CpuStep::Finished(
            Err(ProbeError::NoSourceAvailable),
        ),
        processors is Ok && processors->Ok_0@.len() > 0 && any_lacks_cache(processors->Ok_0@)
            ==> r == CpuStep::QueryCaches(processors->Ok_0),
        processors is Ok && processors->Ok_0@.len() > 0 && !any_lacks_cache(processors->Ok_0@)
            ==> r == CpuStep::Finished(Ok(processors->Ok_0)),
{
    match processors {
        Err(_) => CpuStep::Finished(Err(ProbeError::NoSourceAvailable)),
        Ok(cpus) => {
            if cpus.len() == 0 {
                CpuStep::Finished(Err(ProbeError::NoSourceAvailable))
            } else if needs_cache_query(&cpus) {
                CpuStep::QueryCaches(cpus)
            } else {
                CpuStep::Finished(Ok(cpus))
            }
        },
    }
}

/// The sizes that the cache records report, in order.
pub fn cache_sizes(caches: &Vec<CacheRecord>) -> (r: Vec<u32>)
    ensures
        r@ == reported_sizes(caches@),
{
    let mut out: Vec<u32> = Vec::new();
    let mut i: usize = 0;
    assert(caches@.subrange(0, 0) =~= Seq::<CacheRecord>::empty());
    while i < caches.len()
        invariant
            i <= caches@.len(),
            out@ == reported_sizes(caches@.subrange(0, i as int)),
        decreases caches@.len() - i,
    {
        assert(caches@.subrange(0, i + 1).drop_last() =~= caches@.subrange(0, i as int));
        match caches[i].max_cache_size {
            Some(n) => out.push(n),
            None => {},
        }
        i += 1;
    }
    assert(caches@.subrange(0, caches@.len() as int) =~= caches@);
    out
}

/// The largest and second-largest of the sizes, in the order of a sort from
/// largest to smallest.
pub fn largest_two(sizes: &Vec<u32>) -> (r: (Option<u32>, Option<u32>))
    ensures
        ranked(sizes@, r.0, r.1),
{
    let s = sizes;
    if s.len() == 0 {
        return (None, None);
    }
    let mut best: u32 = s[0];
    let ghost mut bi: int = 0;
    let mut second: Option<u32> = None;
    let ghost mut si: int = -1;
    let mut i: usize = 1;
    while i < s.len()
        invariant
            1 <= i <= s@.len(),
            0 <= bi < i,
            s@[bi] == best,
            second is None <==> i == 1,
            second is Some ==> 0 <= si < i && si != bi && s@[si] == second->Some_0,
            forall|k: int| 0 <= k < i ==> #[trigger] s@[k] <= best,
            second is Some ==> forall|k: int| 0 <= k < i && k != bi ==> #[trigger] s@[k]
                <= second->Some_0,
        decreases s@.len() - i,
    {
        let x = s[i];
        if x > best {
            second = Some(best);
            proof {
                si = bi;
                bi = i as int;
            }
            best = x;
        } else {
            let replace = match second {
                None => true,
                Some(v) => x > v,
            };
            if replace {
                second = Some(x);
                proof {
                    si = i as int;
                }
            }
        }
        i += 1;
    }
    if s.len() == 1 {
        assert(is_largest(s@, best));
    } else {
        assert(top_two(s@, best, second->Some_0));
    }
    (Some(best), second)
}

/// The third step: each record's zero or absent L3 size becomes the largest
/// reported cache and its zero or absent L2 size the second largest. A failed
/// cache query leaves the records as they are.
pub fn cpu_with_caches(cpus: Vec<CpuInfo>, caches: Result<Vec<CacheRecord>, QueryError>) -> (r:
    Vec<CpuInfo>)
    ensures
        r@.len() == cpus@.len(),
        caches is Err ==> r@ == cpus@,
        caches is Ok ==> exists|first: Option<u32>, second: Option<u32>|
            ranked(reported_sizes(caches->Ok_0@), first, second) && forall|i: int|
                0 <= i < r@.len() ==> #[trigger] r@[i] == with_caches(cpus@[i], first, second),
{
    match caches {
        Err(_) => cpus,
        Ok(records) => {
            let sizes = cache_sizes(&records);
            let (first, second) = largest_two(&sizes);
            let ghost orig = cpus@;
            let mut rest = cpus;
            let mut out: Vec<CpuInfo> = Vec::new();
            while rest.len() > 0
                invariant
                    out@.len() + rest@.len() == orig.len(),
                    rest@ == orig.subrange(out@.len() as int, orig.len() as int),
                    forall|k: int|
                        0 <= k < out@.len() ==> #[trigger] out@[k] == with_caches(
                            orig[k],
                            first,
                            second,
                        ),
                decreases rest@.len(),
            {
                let ghost k = out@.len() as int;
                let mut c = rest.remove(0);
                assert(c == orig[k]);
                let l3_missing = match c.l3_cache_size {
                    Some(n) => n == 0,
                    None => true,
                };
                if l3_missing && first.is_some() {
                    c.l3_cache_size = first;
                }
                let l2_missing = match c.l2_cache_size {
                    Some(n) => n == 0,
                    None => true,
                };
                if l2_missing && second.is_some() {
                    c.l2_cache_size = second;
                }
                out.push(c);
                assert(rest@ =~= orig.subrange(out@.len() as int, orig.len() as int));
            }
            out
        },
    }
}

pub open spec fn scored_cpu(c: CpuInfo, r: ScoredCpu) -> bool {
    &&& r.info == c
    &&& r.score == cpu_tier(c.number_of_cores, c.max_clock_speed)
    &&& r.score_num == cpu_points(c.number_of_cores, c.max_clock_speed)
}

/// Each package with the tier and points of its core count and clock, in
/// order.
pub fn score_cpus(cpus: Vec<CpuInfo>) -> (r: Vec<ScoredCpu>)
    ensures
        r@.len() == cpus@.len(),
        forall|i: int| 0 <= i < r@.len() ==> scored_cpu(#[trigger] cpus@[i], r@[i]),
{
    let ghost orig = cpus@;
    let mut rest = cpus;
    let mut out: Vec<ScoredCpu> = Vec::new();
    while rest.len() > 0
        invariant
            out@.len() + rest@.len() == orig.len(),
            rest@ == orig.subrange(out@.len() as int, orig.len() as int),
            forall|k: int| 0 <= k < out@.len() ==> scored_cpu(#[trigger] orig[k], out@[k]),
        decreases rest@.len(),
    {
        let c = rest.remove(0);
        let score = score_cpu(c.number_of_cores, c.max_clock_speed);
        let score_num = calculate_cpu_score_num(c.number_of_cores, c.max_clock_speed);
        out.push(ScoredCpu { info: c, score, score_num });
        assert(rest@ =~= orig.subrange(out@.len() as int, orig.len() as int));
    }
    out
}

} // verus!
