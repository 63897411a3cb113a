use hardware_inventory::devices::{MonitorInfo, NetworkInfo, PnPDevice, SoundInfo};
use hardware_inventory::errors::{Domain, ProbeError, QueryError, SnapshotError};
use hardware_inventory::memory::aggregate_memory;
use hardware_inventory::snapshot::{assemble_snapshot, best_effort, critical, UnitOutcome};

fn sound() -> SoundInfo {
    SoundInfo { name: "Speakers".to_string(), manufacturer: None, status: Some("OK".to_string()) }
}

fn network() -> NetworkInfo {
    NetworkInfo {
        name: "Ethernet".to_string(),
        manufacturer: None,
        adapter_type: None,
        net_connection_id: Some("Ethernet".to_string()),
        speed: Some(1_000_000_000),
        mac_address: None,
        net_connection_status: Some(2),
    }
}

#[test]
fn monitor_query_error_leaves_snapshot_intact() {
    let r = assemble_snapshot(
        UnitOutcome::Completed(Ok(vec![])),
        UnitOutcome::Completed(Ok(vec![])),
        UnitOutcome::Completed(Ok(vec![])),
        UnitOutcome::Completed(Ok(aggregate_memory(vec![]))),
        UnitOutcome::Completed(Ok(vec![])),
        UnitOutcome::Completed(Ok(vec![sound()])),
        UnitOutcome::<Vec<MonitorInfo>>::Completed(Err(ProbeError::Query(QueryError::ClassNotFound))),
        UnitOutcome::Completed(Ok(vec![network()])),
        UnitOutcome::Failed,
        UnitOutcome::Completed(Err(ProbeError::Timeout)),
        UnitOutcome::<Vec<PnPDevice>>::Completed(Ok(vec![])),
    )
    .unwrap();
    assert!(r.monitor.is_empty());
    assert_eq!(r.sound.len(), 1);
    assert_eq!(r.network.len(), 1);
    assert!(r.usb.is_empty());
    assert!(r.camera.is_empty());
}

#[test]
fn first_critical_failure_wins() {
    let r = assemble_snapshot(
        UnitOutcome::Completed(Ok(vec![])),
        UnitOutcome::Completed(Err(ProbeError::NoSourceAvailable)),
        UnitOutcome::Failed,
        UnitOutcome::Completed(Ok(aggregate_memory(vec![]))),
        UnitOutcome::Completed(Err(ProbeError::Timeout)),
        UnitOutcome::Completed(Ok(vec![])),
        UnitOutcome::Completed(Ok(vec![])),
        UnitOutcome::Completed(Ok(vec![])),
        UnitOutcome::Completed(Ok(vec![])),
        UnitOutcome::Completed(Ok(vec![])),
        UnitOutcome::Completed(Ok(vec![])),
    );
    assert_eq!(r.err(), Some(SnapshotError::Probe(Domain::Cpu, ProbeError::NoSourceAvailable)));
    let r = assemble_snapshot(
        UnitOutcome::Completed(Ok(vec![])),
        UnitOutcome::Completed(Ok(vec![])),
        UnitOutcome::Failed,
        UnitOutcome::Completed(Ok(aggregate_memory(vec![]))),
        UnitOutcome::Completed(Err(ProbeError::Timeout)),
        UnitOutcome::Completed(Ok(vec![])),
        UnitOutcome::Completed(Ok(vec![])),
        UnitOutcome::Completed(Ok(vec![])),
        UnitOutcome::Completed(Ok(vec![])),
        UnitOutcome::Completed(Ok(vec![])),
        UnitOutcome::Completed(Ok(vec![])),
    );
    assert_eq!(r.err(), Some(SnapshotError::WorkerFailed(Domain::Gpu)));
}

#[test]
fn critical_and_best_effort_outcomes() {
    let r: Result<Vec<u8>, SnapshotError> = critical(Domain::Disk, UnitOutcome::Completed(Err(ProbeError::Timeout)));
    assert_eq!(r, Err(SnapshotError::Probe(Domain::Disk, ProbeError::Timeout)));
    let r = critical(Domain::Disk, UnitOutcome::Completed(Ok(vec![1u8])));
    assert_eq!(r, Ok(vec![1u8]));
    let v: Vec<u8> = best_effort(UnitOutcome::Failed);
    assert!(v.is_empty());
    assert_eq!(best_effort(UnitOutcome::Completed(Ok(vec![3u8]))), vec![3u8]);
}
