//! Failures of the data sources, of the probes and of a full snapshot.
use vstd::prelude::*;

verus! {

/// The detailed source could not be initialised.
#[derive(Debug, Clone, Copy, PartialEq, Eq, Structural)]
pub enum InitError {
    /// The instrumentation service cannot be reached.
    ConnectionUnavailable,
}

/// A query against the detailed source failed.
#[derive(Debug, Clone, Copy, PartialEq, Eq, Structural)]
pub enum QueryError {
    /// The queried class does not exist on this system.
    ClassNotFound,
    /// A requested field is absent from the class.
    FieldMissing,
    /// The service answered the query with any other failure.
    ServiceFailure,
}

/// A domain probe could not produce its records.
#[derive(Debug, Clone, Copy, PartialEq, Eq, Structural)]
pub enum ProbeError {
    /// No data source could answer for the domain.
    NoSourceAvailable,
    /// The detailed source could not be initialised.
    Init(InitError),
    /// The query that the domain depends on failed.
    Query(QueryError),
    /// The probe did not finish in the time allowed to it.
    Timeout,
}

/// The hardware domains whose failure aborts a snapshot.
#[derive(Debug, Clone, Copy, PartialEq, Eq, Structural)]
pub enum Domain {
    Motherboard,
    Cpu,
    Gpu,
    Memory,
    Disk,
}

/// Why a full snapshot could not be assembled.
#[derive(Debug, Clone, Copy, PartialEq, Eq, Structural)]
pub enum SnapshotError {
    /// The probe of a critical domain failed.
    Probe(Domain, ProbeError),
    /// The unit of work that ran a critical domain did not run to completion.
    WorkerFailed(Domain),
}

/// The records of a query, or none when the query failed.
pub fn or_empty<T>(r: Result<Vec<T>, QueryError>) -> (v: Vec<T>)
    ensures
        r is Ok ==> v == r->Ok_0,
        r is Err ==> v@.len() == 0,
{
    match r {
        Ok(v) => v,
        Err(_) => Vec::new(),
    }
}

/// A query of a critical domain as the probe's result: its failure is the
/// probe's failure.
pub fn probe_query<T>(r: Result<Vec<T>, QueryError>) -> (p: Result<Vec<T>, ProbeError>)
    ensures
        r is Ok ==> p == Ok::<Vec<T>, ProbeError>(r->Ok_0),
        r is Err ==> p == Err::<Vec<T>, ProbeError>(ProbeError::Query(r->Err_0)),
{
    match r {
        Ok(v) => Ok(v),
        Err(e) => Err(ProbeError::Query(e)),
    }
}

} // verus!
