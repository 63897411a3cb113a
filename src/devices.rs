//! Records of the best-effort domains: monitors, network adapters, sound
//! devices and plug-and-play peripherals.
use vstd::prelude::*;

verus! {

/// A desktop monitor record as the detailed source reports it.
#[derive(Debug, Clone)]
pub struct MonitorRecord {
    pub name: Option<String>,
    pub monitor_manufacturer: Option<String>,
    pub screen_height: Option<u32>,
    pub screen_width: Option<u32>,
}

/// One monitor; an unnamed monitor is called "Generic Monitor".
#[derive(Debug, Clone)]
pub struct MonitorInfo {
    pub name: String,
    pub manufacturer: Option<String>,
    pub screen_height: Option<u32>,
    pub screen_width: Option<u32>,
}

/// One network adapter that has a connection id.
#[derive(Debug, Clone)]
pub struct NetworkInfo {
    pub name: String,
    pub manufacturer: Option<String>,
    pub adapter_type: Option<String>,
    pub net_connection_id: Option<String>,
    pub speed: Option<u64>,
    pub mac_address: Option<String>,
    /// 2 marks a connected adapter.
    pub net_connection_status: Option<u16>,
}

/// One sound device.
#[derive(Debug, Clone)]
pub struct SoundInfo {
    pub name: String,
    pub manufacturer: Option<String>,
    pub status: Option<String>,
}

/// One plug-and-play device: USB, camera or Bluetooth.
#[derive(Debug, Clone)]
pub struct PnPDevice {
    pub name: String,
    pub manufacturer: Option<String>,
    pub status: Option<String>,
    pub pnp_class: Option<String>,
}

/// The peripherals, by class.
#[derive(Debug, Clone)]
pub struct PeripheralsInfo {
    pub usb: Vec<PnPDevice>,
    pub camera: Vec<PnPDevice>,
    pub bluetooth: Vec<PnPDevice>,
}

pub open spec fn normalized_monitor(m: MonitorRecord, r: MonitorInfo) -> bool {
    &&& r.name@ == match m.name {
        Some(n) => n@,
        None => "Generic Monitor"@,
    }
    &&& r.manufacturer == m.monitor_manufacturer
    &&& r.screen_height == m.screen_height
    &&& r.screen_width == m.screen_width
}

/// A monitor record with its name filled in.
pub fn normalize_monitor(m: MonitorRecord) -> (r: MonitorInfo)
    ensures
        normalized_monitor(m, r),
{
    let name = match m.name {
        Some(n) => n,
        None => String::from_str("Generic Monitor"),
    };
    MonitorInfo {
        name,
        manufacturer: m.monitor_manufacturer,
        screen_height: m.screen_height,
        screen_width: m.screen_width,
    }
}

/// Each monitor record with its name filled in, in order.
pub fn normalize_monitors(records: Vec<MonitorRecord>) -> (r: Vec<MonitorInfo>)
    ensures
        r@.len() == records@.len(),
        forall|i: int| 0 <= i < r@.len() ==> normalized_monitor(#[trigger] records@[i], r@[i]),
{
    let ghost orig = records@;
    let mut rest = records;
    let mut out: Vec<MonitorInfo> = Vec::new();
    while rest.len() > 0
        invariant
            out@.len() + rest@.len() == orig.len(),
            rest@ == orig.subrange(out@.len() as int, orig.len() as int),
            forall|k: int| 0 <= k < out@.len() ==> normalized_monitor(#[trigger] orig[k], out@[k]),
        decreases rest@.len(),
    {
        let m = rest.remove(0);
        out.push(normalize_monitor(m));
        assert(rest@ =~= orig.subrange(out@.len() as int, orig.len() as int));
    }
    out
}

} // verus!
