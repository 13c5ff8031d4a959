//! What becomes of a failed step: whether the editor must stop, and what is
//! reported where it goes on.

use vstd::prelude::*;

verus! {

/// How grave a reported failure is.
#[derive(Clone, Copy, Debug, PartialEq, Eq, Structural)]
pub enum Severity {
    /// The step was abandoned; the session goes on.
    Warning,
    /// The step failed in a way the user must know of; the session goes on.
    Error,
}

/// A failure to be written to the log and shown to the user.
#[derive(Debug, PartialEq, Eq)]
pub struct Report {
    pub severity: Severity,
    pub message: String,
}

/// The report of a failure: `message` at the given severity where `failed`,
/// else nothing.
pub open spec fn spec_report(failed: bool, severity: Severity, message: Seq<char>, r: Option<
    Report,
>) -> bool {
    &&& r is Some == failed
    &&& r is Some ==> r->0.severity == severity && r->0.message@ == message
}

/// What a result means for the session.
pub trait ResultExt<T, E> {
    /// Whether the result is a failure.
    spec fn failed(&self) -> bool;

    /// The value of a success.
    spec fn value(self) -> T;

    /// The value of a result that must not be a failure. A failure here ends
    /// the program, so the caller tests for it first.
    fn expect_log(self, msg: &str) -> (r: T)
        requires
            !self.failed(),
        ensures
            r == self.value(),
    ;

    /// The report of a failure as an error, or nothing for a success.
    fn error_log(&self, msg: &str) -> (r: Option<Report>)
        ensures
            spec_report(self.failed(), Severity::Error, msg@, r),
    ;

    /// The report of a failure as a warning, or nothing for a success.
    fn warn_log(&self, msg: &str) -> (r: Option<Report>)
        ensures
            spec_report(self.failed(), Severity::Warning, msg@, r),
    ;
}

impl<T, E> ResultExt<T, E> for Result<T, E> {
    open spec fn failed(&self) -> bool {
        self is Err
    }

    open spec fn value(self) -> T {
        self->Ok_0
    }

    fn expect_log(self, msg: &str) -> (r: T) {
        match self {
            Ok(v) => v,
            Err(_) => unreached(),
        }
    }

    fn error_log(&self, msg: &str) -> (r: Option<Report>) {
        match self {
            Ok(_) => None,
            Err(_) => Some(Report { severity: Severity::Error, message: msg.to_owned() }),
        }
    }

    fn warn_log(&self, msg: &str) -> (r: Option<Report>) {
        match self {
            Ok(_) => None,
            Err(_) => Some(Report { severity: Severity::Warning, message: msg.to_owned() }),
        }
    }
}

} // verus!
