//! The GPU probe's records and the video memory resolution chain.
use crate::scoring::{
    calculate_gpu_score_num, gpu_points, gpu_tier, score_gpu, Score, GIB,
};
use crate::text::{contains_text, digit_char, digit_text, same_text, seq_contains};
use vstd::prelude::*;

verus! {

/// One video controller.
#[derive(Debug, Clone)]
pub struct GpuInfo {
    pub name: String,
    pub driver_version: String,
    pub adapter_ram: Option<u64>,
    pub video_processor: Option<String>,
    pub adapter_compatibility: Option<String>,
    pub driver_date: Option<String>,
    pub video_mode_description: Option<String>,
    pub current_refresh_rate: Option<u32>,
    pub current_horizontal_resolution: Option<u32>,
    pub current_vertical_resolution: Option<u32>,
}

/// One per-adapter driver configuration entry: its driver description and
/// the 64-bit and 32-bit memory size values, where present.
#[derive(Debug, Clone)]
pub struct AdapterConfig {
    pub driver_desc: Option<String>,
    pub qw_memory_size: Option<u64>,
    pub memory_size: Option<u32>,
}

/// A video controller with its tier and points.
#[derive(Debug, Clone)]
pub struct ScoredGpu {
    pub info: GpuInfo,
    pub score: Score,
    pub score_num: u32,
}

/// The number of driver configuration entries that are scanned.
pub const CONFIG_ENTRIES: usize = 20;

pub open spec fn vram_or_zero(v: Option<u64>) -> u64 {
    match v {
        Some(n) => n,
        None => 0,
    }
}

/// A reported size below 1 GiB (or none) is suspect.
pub open spec fn vram_suspect(reported: Option<u64>) -> bool {
    vram_or_zero(reported) < GIB
}

/// The chain: the reported size is the baseline; where it is suspect, the
/// driver configuration's size replaces it if larger, and only where the
/// configuration has none, the size known for the model name replaces it if
/// larger.
pub open spec fn resolved_vram(reported: Option<u64>, registry: Option<u64>, by_name: Option<u64>) -> Option<u64> {
    let base = vram_or_zero(reported);
    if !vram_suspect(reported) {
        reported
    } else {
        match registry {
            Some(v) => if v > base {
                Some(v)
            } else {
                reported
            },
            None => match by_name {
                Some(t) => if t > base {
                    Some(t)
                } else {
                    reported
                },
                None => reported,
            },
        }
    }
}

/// Known model names and their video memory in GiB, tried in order.
pub open spec fn model_table() -> Seq<(Seq<char>, u64)> {
    seq![
        ("RTX 4090"@, 24u64),
        ("RTX 4080"@, 16u64),
        ("RTX 4070 Ti"@, 12u64),
        ("RTX 4070"@, 12u64),
        ("RTX 3090"@, 24u64),
        ("RTX 3080"@, 10u64),
        ("RTX 3070"@, 8u64),
        ("RTX 3060"@, 12u64),
    ]
}

/// The bytes of the first table entry whose model name occurs in `name`.
pub open spec fn model_vram_in(name: Seq<char>, table: Seq<(Seq<char>, u64)>) -> Option<u64>
    decreases table.len(),
{
    if table.len() == 0 {
        None
    } else if seq_contains(name, table[0].0) {
        Some((table[0].1 * GIB) as u64)
    } else {
        model_vram_in(name, table.drop_first())
    }
}

pub open spec fn model_vram(name: Seq<char>) -> Option<u64> {
    model_vram_in(name, model_table())
}

/// The memory size that an entry reports: the 64-bit value, else the 32-bit
/// one.
pub open spec fn config_size(c: AdapterConfig) -> Option<u64> {
    match c.qw_memory_size {
        Some(n) => Some(n),
        None => match c.memory_size {
            Some(n) => Some(n as u64),
            None => None,
        },
    }
}

pub open spec fn config_matches(c: AdapterConfig, desc: Seq<char>) -> bool {
    c.driver_desc is Some && c.driver_desc->Some_0@ == desc
}

/// The size of the first entry whose description equals `desc` and that
/// reports a size.
pub open spec fn registry_size(configs: Seq<AdapterConfig>, desc: Seq<char>) -> Option<u64>
    decreases configs.len(),
{
    if configs.len() == 0 {
        None
    } else if config_matches(configs[0], desc) && config_size(configs[0]) is Some {
        config_size(configs[0])
    } else {
        registry_size(configs.drop_first(), desc)
    }
}

/// The four-digit, zero-padded decimal name of entry `i`.
pub open spec fn entry_name(i: nat) -> Seq<char> {
    seq![
        digit_char((i / 1000) % 10),
        digit_char((i / 100) % 10),
        digit_char((i / 10) % 10),
        digit_char(i % 10),
    ]
}

/// The record with its video memory resolved.
pub open spec fn with_vram(g: GpuInfo, v: Option<u64>) -> GpuInfo {
    GpuInfo { adapter_ram: v, ..g }
}

/// Whether the reported size is suspect, so that the driver configuration is
/// worth reading.
pub fn needs_vram_lookup(reported: Option<u64>) -> (r: bool)
    ensures
        r == vram_suspect(reported),
{
    match reported {
        Some(n) => n < GIB,
        None => true,
    }
}

/// Resolves the video memory size from its candidates: the reported size,
/// the driver configuration's size and the size known for the model. A
/// larger candidate only ever replaces a smaller one.
pub fn resolve_vram(reported: Option<u64>, registry: Option<u64>, by_name: Option<u64>) -> (r: Option<u64>)
    ensures
        r == resolved_vram(reported, registry, by_name),
        vram_or_zero(r) >= vram_or_zero(reported),
        vram_suspect(reported) && registry is Some ==> vram_or_zero(r) >= registry->Some_0,
        vram_suspect(reported) && registry is None && by_name is Some ==> vram_or_zero(r)
            >= by_name->Some_0,
        r == reported || r == registry || r == by_name,
{
    let base = match reported {
        Some(n) => n,
        None => 0,
    };
    if base >= GIB {
        return reported;
    }
    match registry {
        Some(v) => if v > base {
            Some(v)
        } else {
            reported
        },
        None => match by_name {
            Some(t) => if t > base {
                Some(t)
            } else {
                reported
            },
            None => reported,
        },
    }
}

fn model_entries() -> (r: Vec<(&'static str, u64)>)
    ensures
        r@.map_values(|e: (&str, u64)| (e.0@, e.1)) == model_table(),
{
    let r = vec![
        ("RTX 4090", 24u64),
        ("RTX 4080", 16u64),
        ("RTX 4070 Ti", 12u64),
        ("RTX 4070", 12u64),
        ("RTX 3090", 24u64),
        ("RTX 3080", 10u64),
        ("RTX 3070", 8u64),
        ("RTX 3060", 12u64),
    ];
    assert(r@.map_values(|e: (&str, u64)| (e.0@, e.1)) =~= model_table());
    r
}

/// The video memory known for a model name: that of the first table entry
/// whose name occurs in it.
pub fn vram_from_model_name(name: &str) -> (r: Option<u64>)
    ensures
        r == model_vram(name@),
{
    let entries = model_entries();
    let ghost table = model_table();
    let mut i: usize = 0;
    assert(table.subrange(0, table.len() as int) =~= table);
    while i < entries.len()
        invariant
            entries@.map_values(|e: (&str, u64)| (e.0@, e.1)) == table,
            table == model_table(),
            forall|k: int| 0 <= k < table.len() ==> #[trigger] table[k].1 <= 24,
            i <= entries@.len(),
            model_vram_in(name@, table.subrange(i as int, table.len() as int)) == model_vram(
                name@,
            ),
        decreases entries@.len() - i,
    {
        let (model, gib) = entries[i];
        assert(table.subrange(i as int, table.len() as int)[0] == (model@, gib));
        assert(table.subrange(i as int, table.len() as int).drop_first() =~= table.subrange(
            i + 1,
            table.len() as int,
        ));
        assert(table[i as int].1 == gib);
        if contains_text(name, model) {
            return Some(gib * GIB);
        }
        i += 1;
    }
    assert(table.subrange(i as int, table.len() as int) =~= Seq::<(Seq<char>, u64)>::empty());
    None
}

/// The video memory that the driver configuration reports for a
/// description: that of the first entry with an equal description that
/// reports a size, the 64-bit value before the 32-bit one.
pub fn registry_vram(configs: &Vec<AdapterConfig>, driver_desc: &str) -> (r: Option<u64>)
    ensures
        r == registry_size(configs@, driver_desc@),
{
    let mut i: usize = 0;
    assert(configs@.subrange(0, configs@.len() as int) =~= configs@);
    while i < configs.len()
        invariant
            i <= configs@.len(),
            registry_size(configs@.subrange(i as int, configs@.len() as int), driver_desc@)
                == registry_size(configs@, driver_desc@),
        decreases configs@.len() - i,
    {
        let c = &configs[i];
        let ghost rest = configs@.subrange(i as int, configs@.len() as int);
        assert(rest[0] == *c);
        assert(rest.drop_first() =~= configs@.subrange(i + 1, configs@.len() as int));
        let matches = match &c.driver_desc {
            Some(d) => same_text(d.as_str(), driver_desc),
            None => false,
        };
        if matches {
            match c.qw_memory_size {
                Some(n) => {
                    return Some(n);
                },
                None => match c.memory_size {
                    Some(n) => {
                        return Some(n as u64);
                    },
                    None => {},
                },
            }
        }
        i += 1;
    }
    assert(configs@.subrange(i as int, configs@.len() as int) =~= Seq::<AdapterConfig>::empty());
    None
}

/// The names of the driver configuration entries that are scanned, "0000"
/// to "0019".
pub fn config_entry_names() -> (r: Vec<String>)
    ensures
        r@.len() == CONFIG_ENTRIES,
        forall|i: int| 0 <= i < r@.len() ==> #[trigger] r@[i]@ == entry_name(i as nat),
{
    let mut out: Vec<String> = Vec::new();
    let mut i: usize = 0;
    while i < CONFIG_ENTRIES
        invariant
            i <= CONFIG_ENTRIES,
            out@.len() == i,
            forall|k: int| 0 <= k < i ==> #[trigger] out@[k]@ == entry_name(k as nat),
        decreases CONFIG_ENTRIES - i,
    {
        let mut name = String::from_str(digit_text((i / 1000) % 10));
        name.append(digit_text((i / 100) % 10));
        name.append(digit_text((i / 10) % 10));
        name.append(digit_text(i % 10));
        assert(name@ =~= entry_name(i as nat));
        out.push(name);
        i += 1;
    }
    out
}

/// The controller with its video memory resolved, given what the driver
/// configuration reports for its name.
pub fn resolve_gpu(gpu: GpuInfo, registry: Option<u64>) -> (r: GpuInfo)
    ensures
        r == with_vram(gpu, resolved_vram(gpu.adapter_ram, registry, model_vram(gpu.name@))),
{
    let by_name = vram_from_model_name(gpu.name.as_str());
    let vram = resolve_vram(gpu.adapter_ram, registry, by_name);
    let mut g = gpu;
    g.adapter_ram = vram;
    g
}

/// The controller with its tier and points; without a video memory size the
/// tier is Unknown and the points 0.
pub fn score_gpu_record(gpu: GpuInfo) -> (r: ScoredGpu)
    ensures
        r.info == gpu,
        gpu.adapter_ram is None ==> r.score == Score::Unknown && r.score_num == 0,
        gpu.adapter_ram is Some ==> r.score == gpu_tier(gpu.adapter_ram->Some_0) && r.score_num
            == gpu_points(gpu.adapter_ram->Some_0),
{
    let (score, score_num) = match gpu.adapter_ram {
        Some(ram) => (score_gpu(ram), calculate_gpu_score_num(ram)),
        None => (Score::Unknown, 0),
    };
    ScoredGpu { info: gpu, score, score_num }
}

pub open spec fn scored_gpu(g: GpuInfo, r: ScoredGpu) -> bool {
    &&& r.info == g
    &&& g.adapter_ram is None ==> r.score == Score::Unknown && r.score_num == 0
    &&& g.adapter_ram is Some ==> r.score == gpu_tier(g.adapter_ram->Some_0) && r.score_num
        == gpu_points(g.adapter_ram->Some_0)
}

/// Each controller with its tier and points, in order.
pub fn score_gpus(gpus: Vec<GpuInfo>) -> (r: Vec<ScoredGpu>)
    ensures
        r@.len() == gpus@.len(),
        forall|i: int| 0 <= i < r@.len() ==> scored_gpu(#[trigger] gpus@[i], r@[i]),
{
    let ghost orig = gpus@;
    let mut rest = gpus;
    let mut out: Vec<ScoredGpu> = Vec::new();
    while rest.len() > 0
        invariant
            out@.len() + rest@.len() == orig.len(),
            rest@ == orig.subrange(out@.len() as int, orig.len() as int),
            forall|k: int| 0 <= k < out@.len() ==> scored_gpu(#[trigger] orig[k], out@[k]),
        decreases rest@.len(),
    {
        let g = rest.remove(0);
        out.push(score_gpu_record(g));
        assert(rest@ =~= orig.subrange(out@.len() as int, orig.len() as int));
    }
    out
}

} // verus!
