//! The parts of a telemetry snapshot that the dashboard's decisions
//! read: per-cell availability, the CPU vendor, and the daemon state.
use vstd::prelude::*;

verus! {

/// Why a telemetry cell carries no value.
#[derive(Debug, Clone, PartialEq, Eq)]
pub enum NaReason {
    /// The kernel driver the reading needs is not loaded.
    DriverMissing,
    /// The reading needs a privilege the reader does not hold.
    InsufficientPrivilege,
    /// The reading does not apply to this platform.
    NotApplicable,
    /// The SMU power-management table layout is not recognised.
    UnknownPmTableVersion,
    /// The hardware is not one the reader supports.
    UnsupportedHardware,
    /// The raw data could not be decoded (the diagnostic).
    ParseError(String),
}

/// One telemetry cell: a decoded value, or the reason there is none.
#[derive(Debug, Clone, PartialEq, Eq)]
pub enum Section<T> {
    /// The decoded value.
    Value(T),
    /// No value, and why.
    Na(NaReason),
}

impl<T> Section<T> {
    /// An absent cell.
    pub fn na(reason: NaReason) -> (s: Self)
        ensures
            s == Section::<T>::Na(reason),
    {
        Section::Na(reason)
    }

    /// The contained value, if any.
    pub fn value(&self) -> (r: Option<&T>)
        ensures
            r == (match self {
                Section::Value(v) => Some(v),
                Section::Na(_) => None,
            }),
    {
        match self {
            Section::Value(v) => Some(v),
            Section::Na(_) => None,
        }
    }
}

/// The AMD Zen generation.
#[derive(Debug, Clone, Copy, PartialEq, Eq)]
pub enum AmdZen {
    Zen1,
    Zen2,
    Zen3,
    Zen4,
    Zen5,
}

/// The CPU vendor found by CPUID.
#[derive(Debug, Clone, Copy, PartialEq, Eq)]
pub enum CpuVendor {
    /// An AMD Zen part.
    Amd(AmdZen),
    /// An Intel part.
    Intel,
    /// Neither vendor could be identified.
    Unknown,
}

/// The facts of the last telemetry snapshot that the first-run checks
/// read: the CPU vendor the daemon saw and the availability of the AMD
/// branch (`None` when it carries a readout).
#[derive(Debug, Clone, PartialEq, Eq)]
pub struct SnapshotFacts {
    /// The CPU vendor reported in the snapshot.
    pub vendor: CpuVendor,
    /// Why the AMD branch is absent, or `None` when it carries a value.
    pub amd_na: Option<NaReason>,
}

/// The dashboard's view of the daemon: the status of the last poll
/// (`connected: <socket>` when it succeeded, empty before the first),
/// the last recorded error, and the last snapshot's facts.
#[derive(Debug, Clone, PartialEq, Eq)]
pub struct TelemetryData {
    /// The status text of the last poll.
    pub daemon_status: String,
    /// The last recorded error, if any.
    pub error: Option<String>,
    /// The last snapshot, if one has landed.
    pub telemetry: Option<SnapshotFacts>,
}

impl TelemetryData {
    /// The never-polled state: an empty status, no error, no snapshot.
    pub fn new() -> (d: Self)
        ensures
            d.daemon_status@ == Seq::<char>::empty(),
            d.error is None,
            d.telemetry is None,
    {
        TelemetryData { daemon_status: String::new(), error: None, telemetry: None }
    }
}

} // verus!
