use hardware_inventory::cpu::{
    aggregate_fast_cpu, cpu_after_detailed, cpu_after_fast, cpu_with_caches, largest_two,
    needs_cache_query, score_cpus, CacheRecord, CpuInfo, CpuStep, FastCpuCore, FastCpuReport,
};
use hardware_inventory::devices::{normalize_monitors, MonitorRecord};
use hardware_inventory::disk::{normalize_disk, score_disk_record, DiskRecord};
use hardware_inventory::errors::{or_empty, InitError, ProbeError, QueryError};
use hardware_inventory::gpu::{
    config_entry_names, needs_vram_lookup, registry_vram, resolve_gpu, resolve_vram,
    score_gpu_record, vram_from_model_name, AdapterConfig, GpuInfo,
};
use hardware_inventory::memory::{aggregate_memory, effective_speed, MemoryInfo};
use hardware_inventory::scoring::{Score, GIB};
use hardware_inventory::text::{chars_of, contains_text, same_text};

fn module(capacity: u64, speed: u32, configured: Option<u32>) -> MemoryInfo {
    MemoryInfo {
        capacity,
        speed,
        manufacturer: "Vendor".to_string(),
        part_number: "PN".to_string(),
        configured_clock_speed: configured,
        device_locator: "DIMM1".to_string(),
        configured_voltage: None,
        min_voltage: None,
        max_voltage: None,
        serial_number: None,
        bank_label: None,
        data_width: None,
        total_width: None,
        form_factor: None,
        status: None,
    }
}

fn cpu(l2: Option<u32>, l3: Option<u32>) -> CpuInfo {
    CpuInfo {
        name: "Test CPU".to_string(),
        max_clock_speed: 3600,
        number_of_cores: 8,
        number_of_logical_processors: 16,
        manufacturer: "Vendor".to_string(),
        l2_cache_size: l2,
        l3_cache_size: l3,
        socket_designation: None,
        description: None,
        virtualization_firmware_enabled: None,
    }
}

fn gpu(name: &str, ram: Option<u64>) -> GpuInfo {
    GpuInfo {
        name: name.to_string(),
        driver_version: "1.0".to_string(),
        adapter_ram: ram,
        video_processor: None,
        adapter_compatibility: None,
        driver_date: None,
        video_mode_description: None,
        current_refresh_rate: None,
        current_horizontal_resolution: None,
        current_vertical_resolution: None,
    }
}

#[test]
fn two_sixteen_gib_modules_aggregate_to_excellent() {
    let mods = vec![module(16 * GIB, 3200, Some(3200)), module(16 * GIB, 3200, Some(3200))];
    let r = aggregate_memory(mods);
    assert_eq!(r.total_gb, 32);
    assert_eq!(r.avg_speed, 3200);
    assert_eq!(r.score, Score::Excellent);
    assert_eq!(r.score_num, 112);
    assert_eq!(r.info.len(), 2);
}

#[test]
fn memory_without_modules() {
    let r = aggregate_memory(vec![]);
    assert_eq!(r.total_gb, 0);
    assert_eq!(r.avg_speed, 0);
    assert_eq!(r.score, Score::Poor);
    assert_eq!(r.score_num, 0);
}

#[test]
fn module_speed_prefers_nonzero_configured_clock() {
    assert_eq!(effective_speed(&module(GIB, 3200, Some(2933))), 2933);
    assert_eq!(effective_speed(&module(GIB, 3200, Some(0))), 3200);
    assert_eq!(effective_speed(&module(GIB, 2400, None)), 2400);
    let r = aggregate_memory(vec![module(8 * GIB, 3200, Some(0)), module(8 * GIB, 2400, Some(2401))]);
    assert_eq!(r.avg_speed, 2800);
    assert_eq!(r.total_gb, 16);
    assert_eq!(r.score, Score::Good);
}

#[test]
fn thousand_gib_nvme_ssd_is_excellent() {
    let d = normalize_disk(DiskRecord {
        model: "Fast Drive".to_string(),
        size: 1_073_741_824_000,
        media_type: Some("Solid State SSD".to_string()),
        interface_type: Some("NVMe".to_string()),
        status: Some("OK".to_string()),
        serial_number: None,
        firmware_revision: None,
        partitions: Some(3),
    });
    let s = score_disk_record(d);
    assert!(s.is_ssd);
    assert!(s.is_nvme);
    assert_eq!(s.score, Score::Excellent);
    assert_eq!(s.score_num, 100);
}

#[test]
fn disk_defaults_for_missing_fields() {
    let d = normalize_disk(DiskRecord {
        model: "Old Drive".to_string(),
        size: 250 * GIB,
        media_type: None,
        interface_type: None,
        status: None,
        serial_number: None,
        firmware_revision: None,
        partitions: None,
    });
    assert_eq!(d.media_type, "Unknown");
    assert_eq!(d.bus_type, "Unknown");
    assert_eq!(d.health_status, "Unknown");
    assert_eq!(d.operational_status, "OK");
    assert_eq!(d.serial_number, "");
    assert_eq!(d.firmware_revision, "");
    assert!(d.status.is_none());
    let s = score_disk_record(d);
    assert!(!s.is_ssd);
    assert!(!s.is_nvme);
    assert_eq!(s.score, Score::Average);
    assert_eq!(s.score_num, 25);
}

#[test]
fn zero_fast_cpus_turn_to_detailed_source() {
    let empty = FastCpuReport { cores: vec![], physical_core_count: None };
    assert!(aggregate_fast_cpu(&empty).is_none());
    assert!(matches!(cpu_after_fast(empty), CpuStep::QueryDetailed));
    let r = cpu_after_detailed(Err(ProbeError::Init(InitError::ConnectionUnavailable)));
    assert!(matches!(r, CpuStep::Finished(Err(ProbeError::NoSourceAvailable))));
    let r = cpu_after_detailed(Err(ProbeError::Query(QueryError::ClassNotFound)));
    assert!(matches!(r, CpuStep::Finished(Err(ProbeError::NoSourceAvailable))));
    let r = cpu_after_detailed(Ok(vec![]));
    assert!(matches!(r, CpuStep::Finished(Err(ProbeError::NoSourceAvailable))));
}

#[test]
fn fast_cpu_report_gives_one_package() {
    let core = |f: u64| FastCpuCore {
        brand: "Brand X".to_string(),
        frequency_mhz: f,
        vendor_id: "VendorX".to_string(),
    };
    let report = FastCpuReport { cores: vec![core(3700), core(3600), core(3500), core(3400)], physical_core_count: Some(2) };
    match cpu_after_fast(report) {
        CpuStep::Finished(Ok(v)) => {
            assert_eq!(v.len(), 1);
            assert_eq!(v[0].name, "Brand X");
            assert_eq!(v[0].manufacturer, "VendorX");
            assert_eq!(v[0].max_clock_speed, 3700);
            assert_eq!(v[0].number_of_cores, 2);
            assert_eq!(v[0].number_of_logical_processors, 4);
            assert!(v[0].l3_cache_size.is_none());
        }
        _ => panic!("expected one package"),
    }
    let report = FastCpuReport { cores: vec![core(u64::MAX)], physical_core_count: None };
    let c = aggregate_fast_cpu(&report).unwrap();
    assert_eq!(c.max_clock_speed, u32::MAX);
    assert_eq!(c.number_of_cores, 1);
}

#[test]
fn detailed_cpus_with_caches_finish_directly() {
    let v = vec![cpu(Some(1024), Some(32768))];
    assert!(!needs_cache_query(&v));
    assert!(matches!(cpu_after_detailed(Ok(v)), CpuStep::Finished(Ok(ref x)) if x.len() == 1));
    let v = vec![cpu(Some(1024), Some(0))];
    assert!(needs_cache_query(&v));
    assert!(matches!(cpu_after_detailed(Ok(v)), CpuStep::QueryCaches(ref x) if x.len() == 1));
}

#[test]
fn cache_sizes_patch_largest_as_l3_second_as_l2() {
    let caches = vec![
        CacheRecord { level: 3, max_cache_size: Some(512) },
        CacheRecord { level: 4, max_cache_size: Some(32768) },
        CacheRecord { level: 5, max_cache_size: None },
        CacheRecord { level: 5, max_cache_size: Some(8192) },
    ];
    let r = cpu_with_caches(vec![cpu(None, Some(0)), cpu(Some(256), Some(16384))], Ok(caches));
    assert_eq!(r[0].l3_cache_size, Some(32768));
    assert_eq!(r[0].l2_cache_size, Some(8192));
    assert_eq!(r[1].l3_cache_size, Some(16384));
    assert_eq!(r[1].l2_cache_size, Some(256));
    let r = cpu_with_caches(vec![cpu(None, None)], Err(QueryError::FieldMissing));
    assert_eq!(r[0].l3_cache_size, None);
    assert_eq!(r[0].l2_cache_size, None);
    let r = cpu_with_caches(vec![cpu(None, None)], Ok(vec![CacheRecord { level: 3, max_cache_size: Some(4096) }]));
    assert_eq!(r[0].l3_cache_size, Some(4096));
    assert_eq!(r[0].l2_cache_size, None);
}

#[test]
fn zero_l2_leads_to_cache_query() {
    let v = vec![cpu(Some(0), Some(8192))];
    assert!(needs_cache_query(&v));
    let pending = match cpu_after_detailed(Ok(v)) {
        CpuStep::QueryCaches(x) => x,
        _ => panic!("expected the cache query"),
    };
    let caches = vec![
        CacheRecord { level: 3, max_cache_size: Some(1024) },
        CacheRecord { level: 5, max_cache_size: Some(16384) },
        CacheRecord { level: 4, max_cache_size: Some(256) },
    ];
    let r = cpu_with_caches(pending, Ok(caches));
    assert_eq!(r[0].l2_cache_size, Some(1024));
    assert_eq!(r[0].l3_cache_size, Some(8192));
}

#[test]
fn largest_two_keeps_equal_sizes() {
    assert_eq!(largest_two(&vec![]), (None, None));
    assert_eq!(largest_two(&vec![7]), (Some(7), None));
    assert_eq!(largest_two(&vec![5, 9, 9, 1]), (Some(9), Some(9)));
    assert_eq!(largest_two(&vec![1, 2, 3, 4]), (Some(4), Some(3)));
}

#[test]
fn cpu_scores_follow_cores_and_clock() {
    let s = score_cpus(vec![cpu(None, None)]);
    assert_eq!(s[0].score, Score::Excellent);
    assert_eq!(s[0].score_num, 16 + 90);
}

#[test]
fn vram_never_regresses() {
    assert_eq!(resolve_vram(Some(512 * 1024 * 1024), Some(8 * GIB), Some(24 * GIB)), Some(8 * GIB));
    assert_eq!(resolve_vram(Some(512 * 1024 * 1024), Some(1024), Some(24 * GIB)), Some(512 * 1024 * 1024));
    assert_eq!(resolve_vram(Some(0), None, Some(24 * GIB)), Some(24 * GIB));
    assert_eq!(resolve_vram(Some(4 * GIB), Some(8 * GIB), None), Some(4 * GIB));
    assert_eq!(resolve_vram(None, None, None), None);
    assert_eq!(resolve_vram(None, Some(0), None), None);
    assert!(needs_vram_lookup(None));
    assert!(needs_vram_lookup(Some(GIB - 1)));
    assert!(!needs_vram_lookup(Some(GIB)));
}

#[test]
fn model_name_table_first_match() {
    assert_eq!(vram_from_model_name("NVIDIA GeForce RTX 4090"), Some(24 * GIB));
    assert_eq!(vram_from_model_name("NVIDIA GeForce RTX 4070 Ti SUPER"), Some(12 * GIB));
    assert_eq!(vram_from_model_name("NVIDIA GeForce RTX 3080"), Some(10 * GIB));
    assert_eq!(vram_from_model_name("AMD Radeon RX 7900"), None);
}

#[test]
fn registry_scan_matches_description() {
    let cfg = |d: Option<&str>, qw: Option<u64>, dw: Option<u32>| AdapterConfig {
        driver_desc: d.map(|s| s.to_string()),
        qw_memory_size: qw,
        memory_size: dw,
    };
    let configs = vec![
        cfg(Some("Other GPU"), Some(2 * GIB), None),
        cfg(Some("My GPU"), None, None),
        cfg(None, Some(GIB), None),
        cfg(Some("My GPU"), None, Some(1 << 30)),
        cfg(Some("My GPU"), Some(16 * GIB), None),
    ];
    assert_eq!(registry_vram(&configs, "My GPU"), Some(GIB));
    assert_eq!(registry_vram(&configs, "Other GPU"), Some(2 * GIB));
    assert_eq!(registry_vram(&configs, "Missing"), None);
    let names = config_entry_names();
    assert_eq!(names.len(), 20);
    assert_eq!(names[0], "0000");
    assert_eq!(names[7], "0007");
    assert_eq!(names[19], "0019");
}

#[test]
fn gpu_record_resolution_and_scoring() {
    let g = resolve_gpu(gpu("NVIDIA GeForce RTX 3070", Some(0)), None);
    assert_eq!(g.adapter_ram, Some(8 * GIB));
    let s = score_gpu_record(g);
    assert_eq!(s.score, Score::Excellent);
    assert_eq!(s.score_num, 64);
    let g = resolve_gpu(gpu("Basic Display", None), None);
    let s = score_gpu_record(g);
    assert_eq!(s.score, Score::Unknown);
    assert_eq!(s.score_num, 0);
    let g = resolve_gpu(gpu("NVIDIA GeForce RTX 3070", Some(6 * GIB)), Some(12 * GIB));
    assert_eq!(g.adapter_ram, Some(6 * GIB));
}

#[test]
fn unnamed_monitor_is_generic() {
    let r = normalize_monitors(vec![
        MonitorRecord { name: None, monitor_manufacturer: None, screen_height: Some(1080), screen_width: Some(1920) },
        MonitorRecord { name: Some("Panel".to_string()), monitor_manufacturer: Some("M".to_string()), screen_height: None, screen_width: None },
    ]);
    assert_eq!(r[0].name, "Generic Monitor");
    assert_eq!(r[0].screen_width, Some(1920));
    assert_eq!(r[1].name, "Panel");
}

#[test]
fn failed_query_counts_as_empty() {
    let v: Vec<u32> = or_empty(Err(QueryError::ServiceFailure));
    assert!(v.is_empty());
    assert_eq!(or_empty(Ok(vec![1u32, 2])), vec![1, 2]);
}

#[test]
fn text_helpers() {
    assert!(contains_text("ASUS PRIME B550M-A", "B550"));
    assert!(contains_text("abc", ""));
    assert!(!contains_text("ab", "abc"));
    assert!(same_text("x", "x"));
    assert!(!same_text("x", "y"));
    assert_eq!(chars_of("héllo"), vec!['h', 'é', 'l', 'l', 'o']);
}
