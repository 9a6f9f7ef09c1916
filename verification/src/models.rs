//! The records the commands report: VMs, single operations, prune summaries
//! and the response wrapper every command prints in JSON mode.
use vstd::prelude::*;
use crate::text::to_owned;

verus! {

/// An instant in UTC: whole seconds since the Unix epoch and the nanoseconds
/// within that second (a leap second shows as 1_000_000_000 or more).
#[derive(Copy, Clone, Debug, PartialEq, Eq, Structural)]
pub struct Timestamp {
    pub secs: i64,
    pub nanos: u32,
}

/// `a` is not later than `b`.
pub open spec fn ts_le(a: Timestamp, b: Timestamp) -> bool {
    a.secs < b.secs || (a.secs == b.secs && a.nanos <= b.nanos)
}

impl Timestamp {
    /// Whether `self` is not later than `other`.
    pub fn le(&self, other: &Timestamp) -> (r: bool)
        ensures
            r == ts_le(*self, *other),
    {
        self.secs < other.secs || (self.secs == other.secs && self.nanos <= other.nanos)
    }
}

/// A VM as the commands see it.
pub struct VmInfo {
    pub name: String,
    pub state: Option<String>,
    pub os: Option<String>,
    pub created_at: Option<Timestamp>,
}

/// The string contents of an optional string.
pub open spec fn opt_view(o: Option<String>) -> Option<Seq<char>> {
    match o {
        Some(s) => Some(s@),
        None => None,
    }
}

/// A VM over plain values.
pub struct VmInfoView {
    pub name: Seq<char>,
    pub state: Option<Seq<char>>,
    pub os: Option<Seq<char>>,
    pub created_at: Option<Timestamp>,
}

impl View for VmInfo {
    type V = VmInfoView;

    open spec fn view(&self) -> VmInfoView {
        VmInfoView {
            name: self.name@,
            state: opt_view(self.state),
            os: opt_view(self.os),
            created_at: self.created_at,
        }
    }
}

/// The views of a list of VMs.
pub open spec fn vms_view(v: Seq<VmInfo>) -> Seq<VmInfoView> {
    v.map_values(|vm: VmInfo| vm@)
}

/// A copy of an optional string.
pub fn copy_opt(o: &Option<String>) -> (r: Option<String>)
    ensures
        opt_view(r) == opt_view(*o),
{
    match o {
        Some(s) => Some(s.clone()),
        None => None,
    }
}

impl VmInfo {
    /// A copy of the record.
    pub fn copy(&self) -> (r: VmInfo)
        ensures
            r@ == self@,
    {
        VmInfo {
            name: self.name.clone(),
            state: copy_opt(&self.state),
            os: copy_opt(&self.os),
            created_at: self.created_at,
        }
    }
}

/// The outcome of one action on one target.
pub struct OperationResult {
    pub ok: bool,
    pub action: String,
    pub target: Option<String>,
    pub message: String,
    pub warnings: Vec<String>,
}

/// What `prune` did: how many VMs matched, were only previewed, were
/// removed, or failed, and the result for each of them.
pub struct DeleteSummary {
    pub matched: usize,
    pub skipped: usize,
    pub deleted: usize,
    pub failed: usize,
    pub results: Vec<OperationResult>,
}

/// The wrapper every command prints in JSON mode.
pub struct CommandResponse<T> {
    pub command: String,
    pub ok: bool,
    pub data: Option<T>,
    pub warnings: Vec<String>,
    pub error: Option<String>,
}

impl<T> CommandResponse<T> {
    /// A successful response carrying `data`.
    pub fn success(command: &str, data: T) -> (r: Self)
        ensures
            r.command@ == command@,
            r.ok,
            r.data == Some(data),
            r.warnings@.len() == 0,
            r.error is None,
    {
        CommandResponse {
            command: to_owned(command),
            ok: true,
            data: Some(data),
            warnings: Vec::new(),
            error: None,
        }
    }

    /// A failed response carrying the error message.
    pub fn failure(command: &str, error: String) -> (r: Self)
        ensures
            r.command@ == command@,
            !r.ok,
            r.data is None,
            r.warnings@.len() == 0,
            r.error == Some(error),
    {
        CommandResponse {
            command: to_owned(command),
            ok: false,
            data: None,
            warnings: Vec::new(),
            error: Some(error),
        }
    }
}

/// `OperationResult` over plain values.
pub struct OperationResultView {
    pub ok: bool,
    pub action: Seq<char>,
    pub target: Option<Seq<char>>,
    pub message: Seq<char>,
    pub warnings: Seq<Seq<char>>,
}

impl View for OperationResult {
    type V = OperationResultView;

    open spec fn view(&self) -> OperationResultView {
        OperationResultView {
            ok: self.ok,
            action: self.action@,
            target: opt_view(self.target),
            message: self.message@,
            warnings: self.warnings@.map_values(|w: String| w@),
        }
    }
}

/// A result with no warnings.
pub open spec fn plain_result(
    ok: bool,
    action: Seq<char>,
    target: Seq<char>,
    message: Seq<char>,
) -> OperationResultView {
    OperationResultView { ok, action, target: Some(target), message, warnings: seq![] }
}

impl OperationResult {
    /// A result for one target with no warnings.
    pub fn new(ok: bool, action: &str, target: &str, message: String) -> (r: OperationResult)
        ensures
            r@ == plain_result(ok, action@, target@, message@),
    {
        let r = OperationResult {
            ok,
            action: to_owned(action),
            target: Some(to_owned(target)),
            message,
            warnings: Vec::new(),
        };
        assert(r@.warnings =~= Seq::<Seq<char>>::empty());
        r
    }
}

/// `DeleteSummary` over plain values.
pub struct DeleteSummaryView {
    pub matched: usize,
    pub skipped: usize,
    pub deleted: usize,
    pub failed: usize,
    pub results: Seq<OperationResultView>,
}

impl View for DeleteSummary {
    type V = DeleteSummaryView;

    open spec fn view(&self) -> DeleteSummaryView {
        DeleteSummaryView {
            matched: self.matched,
            skipped: self.skipped,
            deleted: self.deleted,
            failed: self.failed,
            results: self.results@.map_values(|r: OperationResult| r@),
        }
    }
}

} // verus!
