//! Resolved configuration for one server: bind address and port, the
//! database and migrations locations, and the log sink destination and
//! verbosity. The values arrive already parsed; the library treats them as
//! an opaque, validated value object.

use vstd::prelude::*;

verus! {

/// Verbosity of the structured log sink, from most to least verbose.
#[derive(Clone, Copy, Debug, PartialEq, Eq, Structural)]
pub enum LogLevel {
    Trace,
    Debug,
    Info,
    Warn,
    Error,
}

impl LogLevel {
    /// Numeric severity: higher means more severe, so a sink set to a given
    /// level keeps exactly the records whose severity is at least its own.
    pub open spec fn severity(self) -> int {
        match self {
            LogLevel::Trace => 0,
            LogLevel::Debug => 1,
            LogLevel::Info => 2,
            LogLevel::Warn => 3,
            LogLevel::Error => 4,
        }
    }

    /// Executable severity rank, matching `severity`.
    pub fn rank(self) -> (r: u8)
        ensures
            r as int == self.severity(),
    {
        match self {
            LogLevel::Trace => 0,
            LogLevel::Debug => 1,
            LogLevel::Info => 2,
            LogLevel::Warn => 3,
            LogLevel::Error => 4,
        }
    }

    /// The level's canonical upper-case name, as it appears in log records.
    pub fn name(self) -> (r: &'static str)
        ensures
            r@ == self.spec_name(),
    {
        match self {
            LogLevel::Trace => "TRACE",
            LogLevel::Debug => "DEBUG",
            LogLevel::Info => "INFO",
            LogLevel::Warn => "WARN",
            LogLevel::Error => "ERROR",
        }
    }

    pub open spec fn spec_name(self) -> Seq<char> {
        match self {
            LogLevel::Trace => "TRACE"@,
            LogLevel::Debug => "DEBUG"@,
            LogLevel::Info => "INFO"@,
            LogLevel::Warn => "WARN"@,
            LogLevel::Error => "ERROR"@,
        }
    }
}

/// Whether a record at level `event` passes a sink whose verbosity floor is
/// `floor`.
pub open spec fn level_enabled(floor: LogLevel, event: LogLevel) -> bool {
    event.severity() >= floor.severity()
}

/// Resolved configuration. `mgr_path` is the directory holding schema
/// migrations; `db_path` is the file-backed database location.
pub struct Args {
    pub address: String,
    pub port: u32,
    pub db_path: String,
    pub log_path: String,
    pub mgr_path: String,
    pub log_level: LogLevel,
}

impl Args {
    pub fn new(
        address: String,
        port: u32,
        db_path: String,
        log_path: String,
        mgr_path: String,
        log_level: LogLevel,
    ) -> (r: Args)
        ensures
            r.address@ == address@,
            r.port == port,
            r.db_path@ == db_path@,
            r.log_path@ == log_path@,
            r.mgr_path@ == mgr_path@,
            r.log_level == log_level,
    {
        Args { address, port, db_path, log_path, mgr_path, log_level }
    }
}

} // verus!
