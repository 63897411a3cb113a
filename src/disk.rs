//! Disk drives: normalised records and their scores.
use crate::scoring::{calculate_disk_score_num, disk_points, disk_tier, score_disk, Score};
use crate::text::{contains_text, lower_of, seq_contains, to_lower};
use vstd::prelude::*;

verus! {

/// A disk drive record as the detailed source reports it.
#[derive(Debug, Clone)]
pub struct DiskRecord {
    pub model: String,
    pub size: u64,
    pub media_type: Option<String>,
    pub interface_type: Option<String>,
    pub status: Option<String>,
    pub serial_number: Option<String>,
    pub firmware_revision: Option<String>,
    pub partitions: Option<u32>,
}

/// One disk drive, with absent text fields filled in.
#[derive(Debug, Clone)]
pub struct DiskInfo {
    pub model: String,
    pub size: u64,
    pub media_type: String,
    pub bus_type: String,
    pub health_status: String,
    pub operational_status: String,
    pub serial_number: String,
    pub firmware_revision: String,
    pub partitions: Option<u32>,
    pub status: Option<String>,
    pub pcie_profile: Option<String>,
}

/// A disk with its media classification, tier and points.
#[derive(Debug, Clone)]
pub struct ScoredDisk {
    pub info: DiskInfo,
    pub is_ssd: bool,
    pub is_nvme: bool,
    pub score: Score,
    pub score_num: u32,
}

pub open spec fn text_or(v: Option<String>, default: Seq<char>) -> Seq<char> {
    match v {
        Some(s) => s@,
        None => default,
    }
}

/// The normalised record: media, bus and health default to "Unknown",
/// serial and firmware to the empty text, and the operational status is
/// "OK".
pub open spec fn normalized_disk(d: DiskRecord, r: DiskInfo) -> bool {
    &&& r.model == d.model
    &&& r.size == d.size
    &&& r.media_type@ == text_or(d.media_type, "Unknown"@)
    &&& r.bus_type@ == text_or(d.interface_type, "Unknown"@)
    &&& r.health_status@ == text_or(d.status, "Unknown"@)
    &&& r.operational_status@ == "OK"@
    &&& r.serial_number@ == text_or(d.serial_number, Seq::empty())
    &&& r.firmware_revision@ == text_or(d.firmware_revision, Seq::empty())
    &&& r.partitions == d.partitions
    &&& r.status == d.status
    &&& r.pcie_profile is None
}

fn text_or_default(v: &Option<String>, default: &str) -> (r: String)
    ensures
        r@ == text_or(*v, default@),
{
    match v {
        Some(s) => s.clone(),
        None => String::from_str(default),
    }
}

/// A drive record with its absent fields filled in.
pub fn normalize_disk(d: DiskRecord) -> (r: DiskInfo)
    ensures
        normalized_disk(d, r),
{
    let media_type = text_or_default(&d.media_type, "Unknown");
    let bus_type = text_or_default(&d.interface_type, "Unknown");
    let health_status = text_or_default(&d.status, "Unknown");
    let serial_number = text_or_default(&d.serial_number, "");
    let firmware_revision = text_or_default(&d.firmware_revision, "");
    proof {
        reveal_strlit("");
        assert(""@ =~= Seq::<char>::empty());
    }
    let ok = String::from_str("OK");
    DiskInfo {
        model: d.model,
        size: d.size,
        media_type,
        bus_type,
        health_status,
        operational_status: ok,
        serial_number,
        firmware_revision,
        partitions: d.partitions,
        status: d.status,
        pcie_profile: None,
    }
}

/// Each drive record with its absent fields filled in, in order.
pub fn normalize_disks(records: Vec<DiskRecord>) -> (r: Vec<DiskInfo>)
    ensures
        r@.len() == records@.len(),
        forall|i: int| 0 <= i < r@.len() ==> normalized_disk(#[trigger] records@[i], r@[i]),
{
    let ghost orig = records@;
    let mut rest = records;
    let mut out: Vec<DiskInfo> = Vec::new();
    while rest.len() > 0
        invariant
            out@.len() + rest@.len() == orig.len(),
            rest@ == orig.subrange(out@.len() as int, orig.len() as int),
            forall|k: int| 0 <= k < out@.len() ==> normalized_disk(#[trigger] orig[k], out@[k]),
        decreases rest@.len(),
    {
        let d = rest.remove(0);
        out.push(normalize_disk(d));
        assert(rest@ =~= orig.subrange(out@.len() as int, orig.len() as int));
    }
    out
}

/// A drive is a solid-state drive where its lower-cased media type
/// contains "ssd".
pub open spec fn is_ssd_media(lower_media: Seq<char>) -> bool {
    seq_contains(lower_media, "ssd"@)
}

/// A drive is on an NVMe bus where its lower-cased bus type contains "nvme".
pub open spec fn is_nvme_bus(lower_bus: Seq<char>) -> bool {
    seq_contains(lower_bus, "nvme"@)
}

/// Whether a lower-cased media type names a solid-state drive.
pub fn ssd_media(lower_media: &str) -> (r: bool)
    ensures
        r == is_ssd_media(lower_media@),
{
    contains_text(lower_media, "ssd")
}

/// Whether a lower-cased bus type names an NVMe bus.
pub fn nvme_bus(lower_bus: &str) -> (r: bool)
    ensures
        r == is_nvme_bus(lower_bus@),
{
    contains_text(lower_bus, "nvme")
}

/// The drive with its media classification (without regard to case), tier
/// and points. Tier and points depend on the size alone.
pub fn score_disk_record(d: DiskInfo) -> (r: ScoredDisk)
    ensures
        r.info == d,
        r.is_ssd == is_ssd_media(lower_of(d.media_type@)),
        r.is_nvme == is_nvme_bus(lower_of(d.bus_type@)),
        r.score == disk_tier(d.size),
        r.score_num == disk_points(d.size),
{
    let media = to_lower(d.media_type.as_str());
    let bus = to_lower(d.bus_type.as_str());
    let is_ssd = ssd_media(media.as_str());
    let is_nvme = nvme_bus(bus.as_str());
    let score = score_disk(d.size);
    let score_num = calculate_disk_score_num(d.size);
    ScoredDisk { info: d, is_ssd, is_nvme, score, score_num }
}

pub open spec fn scored_disk(d: DiskInfo, r: ScoredDisk) -> bool {
    &&& r.info == d
    &&& r.is_ssd == is_ssd_media(lower_of(d.media_type@))
    &&& r.is_nvme == is_nvme_bus(lower_of(d.bus_type@))
    &&& r.score == disk_tier(d.size)
    &&& r.score_num == disk_points(d.size)
}

/// Each drive with its classification, tier and points, in order.
pub fn score_disks(disks: Vec<DiskInfo>) -> (r: Vec<ScoredDisk>)
    ensures
        r@.len() == disks@.len(),
        forall|i: int| 0 <= i < r@.len() ==> scored_disk(#[trigger] disks@[i], r@[i]),
{
    let ghost orig = disks@;
    let mut rest = disks;
    let mut out: Vec<ScoredDisk> = Vec::new();
    while rest.len() > 0
        invariant
            out@.len() + rest@.len() == orig.len(),
            rest@ == orig.subrange(out@.len() as int, orig.len() as int),
            forall|k: int| 0 <= k < out@.len() ==> scored_disk(#[trigger] orig[k], out@[k]),
        decreases rest@.len(),
    {
        let d = rest.remove(0);
        out.push(score_disk_record(d));
        assert(rest@ =~= orig.subrange(out@.len() as int, orig.len() as int));
    }
    out
}

} // verus!
