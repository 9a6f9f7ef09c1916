//! Process exit codes and the timeout error of external commands.
use vstd::prelude::*;
use crate::text::{decimal, push_decimal, push_str, to_owned};

verus! {

/// An external command that did not finish in time.
pub struct TimedOut {
    pub label: &'static str,
    pub timeout_secs: u64,
}

/// What a timed-out command reports.
pub open spec fn timed_out_message(label: Seq<char>, secs: u64) -> Seq<char> {
    label + " timed out after "@ + decimal(secs as nat) + "s — UTM may be unresponsive"@
}

impl TimedOut {
    /// The message shown for the timeout.
    pub fn message(&self) -> (r: String)
        ensures
            r@ == timed_out_message(self.label@, self.timeout_secs),
    {
        let mut r = to_owned(self.label);
        push_str(&mut r, " timed out after ");
        push_decimal(&mut r, self.timeout_secs);
        push_str(&mut r, "s — UTM may be unresponsive");
        r
    }
}

/// How the process ends.
#[derive(Copy, Clone, Debug, PartialEq, Eq, Structural)]
pub enum ExitCode {
    Success,
    InvalidUsage,
    DependencyMissing,
    NotFound,
    Conflict,
    PartialFailure,
    ExternalCommandFailed,
    CommandTimedOut,
}

/// The numeric status of each exit code.
pub open spec fn exit_status(code: ExitCode) -> i32 {
    match code {
        ExitCode::Success => 0,
        ExitCode::InvalidUsage => 64,
        ExitCode::DependencyMissing => 124,
        ExitCode::NotFound => 66,
        ExitCode::Conflict => 65,
        ExitCode::PartialFailure => 1,
        ExitCode::ExternalCommandFailed => 1,
        ExitCode::CommandTimedOut => 1,
    }
}

impl ExitCode {
    /// The process exit status.
    pub fn as_i32(self) -> (r: i32)
        ensures
            r == exit_status(self),
    {
        match self {
            Self::Success => 0,
            Self::InvalidUsage => 64,
            Self::DependencyMissing => 124,
            Self::NotFound => 66,
            Self::Conflict => 65,
            Self::PartialFailure => 1,
            Self::ExternalCommandFailed => 1,
            Self::CommandTimedOut => 1,
        }
    }
}

} // verus!
