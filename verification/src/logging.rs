//! The logging policy: which record describes a response.

use vstd::prelude::*;
use crate::response::{Res, ResKind};

verus! {

/// How loudly a record is emitted.
#[derive(Clone, Copy, Debug, PartialEq, Eq, Structural)]
pub enum Severity {
    Error,
    Warn,
    Info,
}

/// One record for the logging sink. The sink is outside this library: the
/// caller emits the record.
#[derive(Clone, Debug, PartialEq, Eq)]
pub struct LogRecord {
    pub severity: Severity,
    pub message: String,
}

/// The severity at which a response of the given class is logged.
pub open spec fn severity_of(kind: ResKind) -> Severity {
    match kind {
        ResKind::ServerError => Severity::Error,
        ResKind::ClientError => Severity::Warn,
        ResKind::Other => Severity::Info,
    }
}

/// The severity at which a response of the given class is logged.
pub fn severity_for(kind: ResKind) -> (severity: Severity)
    ensures
        severity == severity_of(kind),
{
    match kind {
        ResKind::ServerError => Severity::Error,
        ResKind::ClientError => Severity::Warn,
        ResKind::Other => Severity::Info,
    }
}

/// The record that describes a response: its severity follows the class
/// alone, its message is the body. The response itself is left untouched.
pub fn log_response(res: &Res) -> (record: LogRecord)
    ensures
        record.severity == severity_of(res@.kind),
        record.message@ == res@.body,
{
    LogRecord { severity: severity_for(res.get_kind()), message: res.body().to_owned() }
}

} // verus!
