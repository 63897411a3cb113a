//! Assembly of the full inventory from the outcomes of the concurrent probe
//! units: a critical domain's failure fails the snapshot, a best-effort
//! domain's failure leaves its list empty.
use crate::cpu::ScoredCpu;
use crate::devices::{MonitorInfo, NetworkInfo, PnPDevice, SoundInfo};
use crate::disk::ScoredDisk;
use crate::errors::{Domain, ProbeError, SnapshotError};
use crate::gpu::ScoredGpu;
use crate::memory::ScoredRam;
use crate::motherboard::MotherboardInfo;
use vstd::prelude::*;

verus! {

/// How a unit of concurrent work ended: with its probe's result, or without
/// running to completion.
#[derive(Debug)]
pub enum UnitOutcome<T> {
    Completed(Result<T, ProbeError>),
    Failed,
}

/// The full hardware inventory.
#[derive(Debug)]
pub struct FullHardwareInfo {
    pub motherboard: Vec<MotherboardInfo>,
    pub cpu: Vec<ScoredCpu>,
    pub gpu: Vec<ScoredGpu>,
    pub ram: ScoredRam,
    pub disks: Vec<ScoredDisk>,
    pub sound: Vec<SoundInfo>,
    pub monitor: Vec<MonitorInfo>,
    pub network: Vec<NetworkInfo>,
    pub usb: Vec<PnPDevice>,
    pub camera: Vec<PnPDevice>,
    pub bluetooth: Vec<PnPDevice>,
}

/// The failure that a critical domain's outcome stands for, if any.
pub open spec fn critical_failure<T>(domain: Domain, o: UnitOutcome<T>) -> Option<SnapshotError> {
    match o {
        UnitOutcome::Completed(Ok(_)) => None,
        UnitOutcome::Completed(Err(e)) => Some(SnapshotError::Probe(domain, e)),
        UnitOutcome::Failed => Some(SnapshotError::WorkerFailed(domain)),
    }
}

/// The value of a completed, successful outcome.
pub open spec fn completed_value<T>(o: UnitOutcome<T>) -> T {
    o->Completed_0->Ok_0
}

/// The records of a best-effort outcome: empty unless it completed with
/// success.
pub open spec fn best_effort_records<T>(o: UnitOutcome<Vec<T>>) -> Seq<T> {
    match o {
        UnitOutcome::Completed(Ok(v)) => v@,
        _ => Seq::empty(),
    }
}

/// A critical domain's records, or the snapshot error that its failure
/// causes.
pub fn critical<T>(domain: Domain, outcome: UnitOutcome<T>) -> (r: Result<T, SnapshotError>)
    ensures
        critical_failure(domain, outcome) is None ==> r == Ok::<T, SnapshotError>(
            completed_value(outcome),
        ),
        critical_failure(domain, outcome) is Some ==> r == Err::<T, SnapshotError>(
            critical_failure(domain, outcome)->Some_0,
        ),
{
    match outcome {
        UnitOutcome::Completed(Ok(v)) => Ok(v),
        UnitOutcome::Completed(Err(e)) => Err(SnapshotError::Probe(domain, e)),
        UnitOutcome::Failed => Err(SnapshotError::WorkerFailed(domain)),
    }
}

/// A best-effort domain's records; any failure gives an empty list.
pub fn best_effort<T>(outcome: UnitOutcome<Vec<T>>) -> (r: Vec<T>)
    ensures
        r@ == best_effort_records(outcome),
{
    match outcome {
        UnitOutcome::Completed(Ok(v)) => v,
        _ => Vec::new(),
    }
}

/// The first critical failure, in the order motherboard, CPU, GPU, memory,
/// disk.
pub open spec fn first_critical_failure(
    motherboard: UnitOutcome<Vec<MotherboardInfo>>,
    cpu: UnitOutcome<Vec<ScoredCpu>>,
    gpu: UnitOutcome<Vec<ScoredGpu>>,
    ram: UnitOutcome<ScoredRam>,
    disks: UnitOutcome<Vec<ScoredDisk>>,
) -> Option<SnapshotError> {
    if critical_failure(Domain::Motherboard, motherboard) is Some {
        critical_failure(Domain::Motherboard, motherboard)
    } else if critical_failure(Domain::Cpu, cpu) is Some {
        critical_failure(Domain::Cpu, cpu)
    } else if critical_failure(Domain::Gpu, gpu) is Some {
        critical_failure(Domain::Gpu, gpu)
    } else if critical_failure(Domain::Memory, ram) is Some {
        critical_failure(Domain::Memory, ram)
    } else {
        critical_failure(Domain::Disk, disks)
    }
}

/// Joins the outcomes of all probe units into one snapshot. It fails with
/// the first critical failure; the sound, monitor, network and peripheral
/// lists are empty where their units failed.
pub fn assemble_snapshot(
    motherboard: UnitOutcome<Vec<MotherboardInfo>>,
    cpu: UnitOutcome<Vec<ScoredCpu>>,
    gpu: UnitOutcome<Vec<ScoredGpu>>,
    ram: UnitOutcome<ScoredRam>,
    disks: UnitOutcome<Vec<ScoredDisk>>,
    sound: UnitOutcome<Vec<SoundInfo>>,
    monitor: UnitOutcome<Vec<MonitorInfo>>,
    network: UnitOutcome<Vec<NetworkInfo>>,
    usb: UnitOutcome<Vec<PnPDevice>>,
    camera: UnitOutcome<Vec<PnPDevice>>,
    bluetooth: UnitOutcome<Vec<PnPDevice>>,
) -> (r: Result<FullHardwareInfo, SnapshotError>)
    ensures
        first_critical_failure(motherboard, cpu, gpu, ram, disks) is Some ==> r
            == Err::<FullHardwareInfo, SnapshotError>(
            first_critical_failure(motherboard, cpu, gpu, ram, disks)->Some_0,
        ),
        first_critical_failure(motherboard, cpu, gpu, ram, disks) is None ==> r is Ok && ({
            let s = r->Ok_0;
            &&& s.motherboard == completed_value(motherboard)
            &&& s.cpu == completed_value(cpu)
            &&& s.gpu == completed_value(gpu)
            &&& s.ram == completed_value(ram)
            &&& s.disks == completed_value(disks)
            &&& s.sound@ == best_effort_records(sound)
            &&& s.monitor@ == best_effort_records(monitor)
            &&& s.network@ == best_effort_records(network)
            &&& s.usb@ == best_effort_records(usb)
            &&& s.camera@ == best_effort_records(camera)
            &&& s.bluetooth@ == best_effort_records(bluetooth)
        }),
{
    let motherboard = match critical(Domain::Motherboard, motherboard) {
        Ok(v) => v,
        Err(e) => {
            return Err(e);
        },
    };
    let cpu = match critical(Domain::Cpu, cpu) {
        Ok(v) => v,
        Err(e) => {
            return Err(e);
        },
    };
    let gpu = match critical(Domain::Gpu, gpu) {
        Ok(v) => v,
        Err(e) => {
            return Err(e);
        },
    };
    let ram = match critical(Domain::Memory, ram) {
        Ok(v) => v,
        Err(e) => {
            return Err(e);
        },
    };
    let disks = match critical(Domain::Disk, disks) {
        Ok(v) => v,
        Err(e) => {
            return Err(e);
        },
    };
    Ok(
        FullHardwareInfo {
            motherboard,
            cpu,
            gpu,
            ram,
            disks,
            sound: best_effort(sound),
            monitor: best_effort(monitor),
            network: best_effort(network),
            usb: best_effort(usb),
            camera: best_effort(camera),
            bluetooth: best_effort(bluetooth),
        },
    )
}

} // verus!
