//! The structured log target. A sink has a verbosity floor and an ordered
//! list of records; emitting appends the record exactly when its level
//! passes the floor. The sink is an explicit handle — created once by the
//! assembly pipeline's logging stage and injected wherever records are
//! emitted — rather than process-global state, so isolated instances can be
//! constructed and inspected.

use vstd::prelude::*;
use vstd::string::StrSliceExecFns;
use vstd::string::StringExecFns;

use crate::args::{level_enabled, Args, LogLevel};
use crate::paths::{base_name, dir_of, split_path};

verus! {

/// One structured record: the correlation fields are always present; the
/// status and duration fields are carried only by request-finished records.
#[derive(Debug)]
pub struct LogRecord {
    pub level: LogLevel,
    pub msg: String,
    pub id: String,
    pub uri: String,
    pub method: String,
    pub status: Option<u16>,
    pub duration_ms: Option<u64>,
}

#[verifier::ext_equal]
pub struct LogRecordView {
    pub level: LogLevel,
    pub msg: Seq<char>,
    pub id: Seq<char>,
    pub uri: Seq<char>,
    pub method: Seq<char>,
    pub status: Option<u16>,
    pub duration_ms: Option<u64>,
}

impl View for LogRecord {
    type V = LogRecordView;

    open spec fn view(&self) -> LogRecordView {
        LogRecordView {
            level: self.level,
            msg: self.msg@,
            id: self.id@,
            uri: self.uri@,
            method: self.method@,
            status: self.status,
            duration_ms: self.duration_ms,
        }
    }
}

#[derive(Debug)]
pub struct LogSink {
    pub floor: LogLevel,
    pub records: Vec<LogRecord>,
}

#[verifier::ext_equal]
pub struct LogSinkView {
    pub floor: LogLevel,
    pub records: Seq<LogRecordView>,
}

impl View for LogSink {
    type V = LogSinkView;

    open spec fn view(&self) -> LogSinkView {
        LogSinkView {
            floor: self.floor,
            records: self.records@.map_values(|r: LogRecord| r@),
        }
    }
}

/// What one emission does to a sink: the record is appended exactly when its
/// level passes the sink's verbosity floor.
pub open spec fn emit_model(s: LogSinkView, r: LogRecordView) -> LogSinkView {
    if level_enabled(s.floor, r.level) {
        LogSinkView { floor: s.floor, records: s.records.push(r) }
    } else {
        s
    }
}

impl LogSink {
    pub fn new(floor: LogLevel) -> (s: LogSink)
        ensures
            s@.floor == floor,
            s@.records == Seq::<LogRecordView>::empty(),
    {
        let s = LogSink { floor, records: Vec::new() };
        proof {
            assert(s@.records =~= Seq::<LogRecordView>::empty());
        }
        s
    }

    /// Appends `r` when its level passes the floor; otherwise leaves the
    /// sink unchanged. The floor itself never changes.
    pub fn emit(&mut self, r: LogRecord)
        ensures
            final (self)@ == emit_model(old(self)@, r@),
    {
        let ghost pre = self@;
        let ghost rv = r@;
        if r.level.rank() >= self.floor.rank() {
            self.records.push(r);
            proof {
                assert(self@.records =~= pre.records.push(rv));
                assert(self@ =~= emit_model(pre, rv));
            }
        }
    }
}

/// Why a log destination cannot be used.
#[derive(Debug)]
pub enum LogError {
    /// The location is empty, so there is no directory to hold the file.
    NoParent { path: String },
    /// The location ends in `/`, so it names no base file.
    NoFileName { path: String },
}

impl LogError {
    pub open spec fn spec_message(&self) -> Seq<char> {
        match self {
            LogError::NoParent { path } => "Logs path `"@ + path@ + "` has no parent."@,
            LogError::NoFileName { path } => "Log path `"@ + path@
                + "` does not end in a base file name."@,
        }
    }

    /// The operator-facing description of the failure, naming the path.
    pub fn message(&self) -> (m: String)
        ensures
            m@ == self.spec_message(),
    {
        match self {
            LogError::NoParent { path } => {
                let mut m = String::from_str("Logs path `");
                m.append(path.as_str());
                m.append("` has no parent.");
                proof {
                    assert(m@ =~= self.spec_message());
                }
                m
            },
            LogError::NoFileName { path } => {
                let mut m = String::from_str("Log path `");
                m.append(path.as_str());
                m.append("` does not end in a base file name.");
                proof {
                    assert(m@ =~= self.spec_message());
                }
                m
            },
        }
    }
}

/// The logging stage's result: where the rolling log file lives, and the
/// sink handle that receives this process's structured records.
#[derive(Debug)]
pub struct LogManager {
    pub directory: String,
    pub file_prefix: String,
    pub sink: LogSink,
}

impl LogManager {
    /// Resolves the log destination from configuration. Succeeds exactly
    /// when the configured path names a base file; the sink starts empty
    /// with the configured verbosity floor.
    pub fn register(args: &Args) -> (r: Result<LogManager, LogError>)
        ensures
            match r {
                Ok(m) => {
                    &&& args.log_path@.len() > 0
                    &&& base_name(args.log_path@).len() > 0
                    &&& m.directory@ == dir_of(args.log_path@)
                    &&& m.file_prefix@ == base_name(args.log_path@)
                    &&& m.sink@.floor == args.log_level
                    &&& m.sink@.records == Seq::<LogRecordView>::empty()
                },
                Err(LogError::NoParent { path }) => {
                    &&& args.log_path@.len() == 0
                    &&& path@ == args.log_path@
                },
                Err(LogError::NoFileName { path }) => {
                    &&& args.log_path@.len() > 0
                    &&& base_name(args.log_path@).len() == 0
                    &&& path@ == args.log_path@
                },
            },
    {
        if args.log_path.as_str().unicode_len() == 0 {
            return Err(LogError::NoParent { path: args.log_path.clone() });
        }
        let (directory, file_prefix) = split_path(args.log_path.as_str());
        if file_prefix.as_str().unicode_len() == 0 {
            return Err(LogError::NoFileName { path: args.log_path.clone() });
        }
        Ok(LogManager { directory, file_prefix, sink: LogSink::new(args.log_level) })
    }
}

} // verus!
