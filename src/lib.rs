//! Hardware inventory and scoring engine.
//!
//! The library holds the deterministic part of a hardware inventory: the
//! normalised records of each hardware domain, the heuristics that patch
//! missing or implausible values, the fallback steps of the probes, the
//! assembly of a full snapshot, and the scoring of CPU, GPU, memory and disk.
//! Querying the machine itself is left to the caller, which hands the raw
//! answers of its data sources to these functions.
pub mod cpu;
pub mod devices;
pub mod disk;
pub mod errors;
pub mod gpu;
pub mod memory;
pub mod motherboard;
pub mod scoring;
pub mod snapshot;
pub mod text;
