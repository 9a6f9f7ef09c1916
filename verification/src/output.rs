//! When the tool prints what: informational notes are silenced by `--quiet`
//! and by JSON mode, error notes and plain output by JSON mode alone. The
//! binary does the printing.
use vstd::prelude::*;
use crate::text::{concat_strs, to_owned};

verus! {

/// The output modes of a run.
pub struct Reporter {
    json: bool,
    quiet: bool,
}

impl Reporter {
    /// Whether JSON mode is on.
    pub closed spec fn json_mode(&self) -> bool {
        self.json
    }

    /// Whether quiet mode is on.
    pub closed spec fn quiet_mode(&self) -> bool {
        self.quiet
    }

    /// A reporter for the given modes.
    pub fn new(json: bool, quiet: bool) -> (r: Reporter)
        ensures
            r.json_mode() == json,
            r.quiet_mode() == quiet,
    {
        Reporter { json, quiet }
    }

    /// Whether output is JSON.
    pub fn is_json(&self) -> (r: bool)
        ensures
            r == self.json_mode(),
    {
        self.json
    }

    /// The standard-error line for an informational note, if one is shown.
    pub fn info_line(&self, msg: &str) -> (r: Option<String>)
        ensures
            match r {
                Some(l) => !self.quiet_mode() && !self.json_mode() && l@ == "info: "@ + msg@,
                None => self.quiet_mode() || self.json_mode(),
            },
    {
        if self.quiet || self.json {
            return None;
        }
        Some(concat_strs("info: ", msg))
    }

    /// The standard-error line for an error note, if one is shown.
    pub fn error_line(&self, msg: &str) -> (r: Option<String>)
        ensures
            match r {
                Some(l) => !self.json_mode() && l@ == "error: "@ + msg@,
                None => self.json_mode(),
            },
    {
        if self.json {
            return None;
        }
        Some(concat_strs("error: ", msg))
    }

    /// The standard-output line for plain output, if one is shown.
    pub fn stdout_line(&self, msg: &str) -> (r: Option<String>)
        ensures
            match r {
                Some(l) => !self.json_mode() && l@ == msg@,
                None => self.json_mode(),
            },
    {
        if self.json {
            return None;
        }
        Some(to_owned(msg))
    }
}

} // verus!
