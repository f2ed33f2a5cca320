//! Diagnostics requests of the sysreq protocol: Hello, Poke and Log.
//!
//! Free text travels as UTF-8 bytes; turning it into platform strings is the
//! caller's presentation concern, not part of the protocol.
use vstd::prelude::*;

verus! {

/// Hello request: a free-text identifier the host records.
#[derive(Clone, Debug)]
pub struct HelloRpcRequest {
    pub who: Vec<u8>,
}

impl View for HelloRpcRequest {
    type V = Seq<u8>;

    open spec fn view(&self) -> Seq<u8> {
        self.who@
    }
}

/// Poke request: bumps the per-device counter and returns the new count.
#[derive(Clone, Copy, Debug)]
pub struct PokeRpcRequest;

/// Severity of a guest log record, host-side order of the numeric levels.
#[derive(Clone, Copy, Debug, PartialEq, Eq, Structural)]
pub enum LogLevel {
    Error,
    Warn,
    Info,
    Debug,
    Trace,
}

/// The severity a numeric guest level maps to: 1 is an error, each step up is
/// one level more verbose, and everything past the known range is trace.
pub open spec fn spec_log_level_of(level: u32) -> LogLevel {
    if level == 1 {
        LogLevel::Error
    } else if level == 2 {
        LogLevel::Warn
    } else if level == 3 {
        LogLevel::Info
    } else if level == 4 {
        LogLevel::Debug
    } else {
        LogLevel::Trace
    }
}

/// Map a guest-supplied numeric level to a host severity.
pub fn log_level_of(level: u32) -> (r: LogLevel)
    ensures
        r == spec_log_level_of(level),
{
    match level {
        1 => LogLevel::Error,
        2 => LogLevel::Warn,
        3 => LogLevel::Info,
        4 => LogLevel::Debug,
        _ => LogLevel::Trace,
    }
}

/// Log request: a structured record forwarded into the host's logging sink.
#[derive(Clone, Debug)]
pub struct LogRpcRequest {
    pub target: Vec<u8>,
    pub level: u32,
    pub body: Vec<u8>,
    pub module: Option<Vec<u8>>,
    pub file: Option<Vec<u8>>,
    pub line: Option<u32>,
}

/// Mathematical image of a log record.
pub ghost struct LogModel {
    pub target: Seq<u8>,
    pub level: u32,
    pub body: Seq<u8>,
    pub module: Option<Seq<u8>>,
    pub file: Option<Seq<u8>>,
    pub line: Option<u32>,
}

/// The model of an optional byte field.
pub open spec fn opt_view(o: Option<Vec<u8>>) -> Option<Seq<u8>> {
    match o {
        Option::None => Option::None,
        Option::Some(v) => Option::Some(v@),
    }
}

impl View for LogRpcRequest {
    type V = LogModel;

    open spec fn view(&self) -> LogModel {
        LogModel {
            target: self.target@,
            level: self.level,
            body: self.body@,
            module: opt_view(self.module),
            file: opt_view(self.file),
            line: self.line,
        }
    }
}

} // verus!
