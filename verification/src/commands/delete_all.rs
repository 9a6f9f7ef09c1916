//! `prune`: removes every listed VM that matches the prefix, OS and age
//! filters, previewing only under `--dry-run`, and sums up what happened.
use vstd::prelude::*;
use crate::cli::{OsType, os_name};
use crate::errors::ExitCode;
use crate::models::{
    CommandResponse, DeleteSummary, OperationResult, OperationResultView, Timestamp, VmInfo,
    VmInfoView, plain_result, ts_le, vms_view,
};
use crate::state::{StateFile, VmMetadataView};
use crate::text::{
    IntErrorKind, chars_of, decimal, int_error_message, parse_i64, parse_i64_exec,
    push_decimal, push_str, starts_with, starts_with_exec, str_eq, string_of_range, to_owned,
};
use super::{Line, LineView, Outcome, err_outcome, lines_view, reply_err};
use super::lifecycle::{annotated, annotated_copy};

verus! {

// ---------------------------------------------------------------------------
// --older-than
// ---------------------------------------------------------------------------
/// The units of `--older-than`.
#[derive(Copy, Clone, Debug, PartialEq, Eq, Structural)]
pub enum AgeUnit {
    Hours,
    Days,
}

/// Seconds in one unit.
pub open spec fn unit_seconds(u: AgeUnit) -> int {
    match u {
        AgeUnit::Hours => 3600,
        AgeUnit::Days => 86400,
    }
}

/// Why an `--older-than` value is refused.
pub enum OlderThanError {
    /// Fewer than two characters.
    TooShort(String),
    /// The number before the unit is not an `i64`.
    BadNumber(IntErrorKind),
    /// The last character is neither `h` nor `d`.
    BadUnit(char),
    /// The age is zero or negative.
    NotPositive,
    /// The age is too large for a `chrono::TimeDelta`.
    OutOfRange(String),
}

/// `OlderThanError` over plain values.
pub enum OlderThanErrorView {
    TooShort(Seq<char>),
    BadNumber(IntErrorKind),
    BadUnit(char),
    NotPositive,
    OutOfRange(Seq<char>),
}

impl View for OlderThanError {
    type V = OlderThanErrorView;

    open spec fn view(&self) -> OlderThanErrorView {
        match self {
            OlderThanError::TooShort(s) => OlderThanErrorView::TooShort(s@),
            OlderThanError::BadNumber(k) => OlderThanErrorView::BadNumber(*k),
            OlderThanError::BadUnit(c) => OlderThanErrorView::BadUnit(*c),
            OlderThanError::NotPositive => OlderThanErrorView::NotPositive,
            OlderThanError::OutOfRange(s) => OlderThanErrorView::OutOfRange(s@),
        }
    }
}

/// The message of each refusal.
pub open spec fn older_than_message(e: OlderThanErrorView) -> Seq<char> {
    match e {
        OlderThanErrorView::TooShort(s) => "invalid older-than '"@ + s
            + "': expected values like 24h or 7d"@,
        OlderThanErrorView::BadNumber(k) => int_error_message(k),
        OlderThanErrorView::BadUnit(c) => "invalid older-than unit '"@ + seq![c] + "': use h or d"@,
        OlderThanErrorView::NotPositive => "older-than must be greater than zero"@,
        OlderThanErrorView::OutOfRange(s) => "invalid older-than '"@ + s + "': out of range"@,
    }
}

impl OlderThanError {
    /// The message shown for the refusal.
    pub fn message(&self) -> (r: String)
        ensures
            r@ == older_than_message(self@),
    {
        match self {
            OlderThanError::TooShort(s) => {
                let mut r = to_owned("invalid older-than '");
                push_str(&mut r, s.as_str());
                push_str(&mut r, "': expected values like 24h or 7d");
                r
            },
            OlderThanError::BadNumber(k) => to_owned(k.message()),
            OlderThanError::BadUnit(c) => {
                let mut r = to_owned("invalid older-than unit '");
                r.push(*c);
                push_str(&mut r, "': use h or d");
                r
            },
            OlderThanError::NotPositive => to_owned("older-than must be greater than zero"),
            OlderThanError::OutOfRange(s) => {
                let mut r = to_owned("invalid older-than '");
                push_str(&mut r, s.as_str());
                push_str(&mut r, "': out of range");
                r
            },
        }
    }
}

/// The number and unit of an `--older-than` value: the last character is the
/// unit, the rest the number.
pub open spec fn older_than_parts(raw: Seq<char>) -> Result<(int, AgeUnit), OlderThanErrorView> {
    if raw.len() < 2 {
        Err(OlderThanErrorView::TooShort(raw))
    } else {
        match parse_i64(raw.drop_last()) {
            Err(k) => Err(OlderThanErrorView::BadNumber(k)),
            Ok(n) => if raw.last() == 'h' {
                Ok((n, AgeUnit::Hours))
            } else if raw.last() == 'd' {
                Ok((n, AgeUnit::Days))
            } else {
                Err(OlderThanErrorView::BadUnit(raw.last()))
            },
        }
    }
}

/// Splits an `--older-than` value into its number and unit.
pub fn split_older_than(raw: &str) -> (r: Result<(i64, AgeUnit), OlderThanError>)
    ensures
        match r {
            Ok((n, u)) => older_than_parts(raw@) == Ok::<(int, AgeUnit), OlderThanErrorView>(
                (n as int, u),
            ),
            Err(e) => older_than_parts(raw@) == Err::<(int, AgeUnit), OlderThanErrorView>(e@),
        },
{
    let v = chars_of(raw);
    if v.len() < 2 {
        return Err(OlderThanError::TooShort(to_owned(raw)));
    }
    let num = string_of_range(&v, 0, v.len() - 1);
    let unit = v[v.len() - 1];
    assert(num@ =~= raw@.drop_last());
    match parse_i64_exec(num.as_str()) {
        Err(k) => Err(OlderThanError::BadNumber(k)),
        Ok(n) => {
            if unit == 'h' {
                Ok((n, AgeUnit::Hours))
            } else if unit == 'd' {
                Ok((n, AgeUnit::Days))
            } else {
                Err(OlderThanError::BadUnit(unit))
            }
        },
    }
}

/// The whole seconds a `chrono::TimeDelta` can hold: at most `i64::MAX`
/// milliseconds either way.
pub open spec fn delta_in_range(secs: int) -> bool {
    -9_223_372_036_854_775 <= secs <= 9_223_372_036_854_775
}

/// `chrono::TimeDelta::try_hours`, in seconds: `Some` exactly when the
/// duration fits a `TimeDelta`.
#[verifier::external_body]
fn try_hours_seconds(hours: i64) -> (r: Option<i64>)
    ensures
        r == (if delta_in_range(hours * 3600) {
            Some((hours * 3600) as i64)
        } else {
            None
        }),
{
    match chrono::TimeDelta::try_hours(hours) {
        Some(d) => Some(d.num_seconds()),
        None => None,
    }
}

/// `chrono::TimeDelta::try_days`, in seconds: `Some` exactly when the
/// duration fits a `TimeDelta`.
#[verifier::external_body]
fn try_days_seconds(days: i64) -> (r: Option<i64>)
    ensures
        r == (if delta_in_range(days * 86400) {
            Some((days * 86400) as i64)
        } else {
            None
        }),
{
    match chrono::TimeDelta::try_days(days) {
        Some(d) => Some(d.num_seconds()),
        None => None,
    }
}

/// The age in seconds, if `chrono` can hold it.
pub fn age_seconds(amount: i64, unit: AgeUnit) -> (r: Option<i64>)
    ensures
        r == (if delta_in_range(amount * unit_seconds(unit)) {
            Some((amount * unit_seconds(unit)) as i64)
        } else {
            None
        }),
{
    match unit {
        AgeUnit::Hours => try_hours_seconds(amount),
        AgeUnit::Days => try_days_seconds(amount),
    }
}

/// `--older-than` as an age in seconds.
pub open spec fn older_than(raw: Seq<char>) -> Result<int, OlderThanErrorView> {
    match older_than_parts(raw) {
        Err(e) => Err(e),
        Ok((n, u)) => if !delta_in_range(n * unit_seconds(u)) {
            Err(OlderThanErrorView::OutOfRange(raw))
        } else if n * unit_seconds(u) <= 0 {
            Err(OlderThanErrorView::NotPositive)
        } else {
            Ok(n * unit_seconds(u))
        },
    }
}

/// Reads an `--older-than` value such as `24h` or `7d` into seconds: the
/// last character is the unit, the rest an `i64`, and the age must be
/// positive and fit a `chrono::TimeDelta`.
pub fn parse_older_than(raw: &str) -> (r: Result<i64, OlderThanError>)
    ensures
        match r {
            Ok(s) => older_than(raw@) == Ok::<int, OlderThanErrorView>(s as int),
            Err(e) => older_than(raw@) == Err::<int, OlderThanErrorView>(e@),
        },
{
    match split_older_than(raw) {
        Err(e) => Err(e),
        Ok((n, u)) => {
            let secs = age_seconds(n, u);
            match secs {
                Some(s) => {
                    if s <= 0 {
                        Err(OlderThanError::NotPositive)
                    } else {
                        Ok(s)
                    }
                },
                None => Err(OlderThanError::OutOfRange(to_owned(raw))),
            }
        },
    }
}

/// The whole seconds since the Unix epoch that a `chrono::DateTime<Utc>` can
/// stand for: from January 1, 262144 BCE, 00:00:00 to December 31, 262142 CE,
/// 23:59:59.
pub open spec fn timestamp_in_range(secs: int) -> bool {
    -8_334_601_228_800 <= secs <= 8_210_266_876_799
}

/// What `prune_cutoff` gives: `now` moved back by `age_secs` whole seconds,
/// the nanoseconds kept, when `now`, the age as a `TimeDelta` and the result
/// are all in range; else nothing.
pub open spec fn cutoff_of(now: Timestamp, age_secs: int) -> Option<Timestamp> {
    if timestamp_in_range(now.secs as int) && delta_in_range(age_secs)
        && timestamp_in_range(now.secs - age_secs) {
        Some(Timestamp { secs: (now.secs - age_secs) as i64, nanos: now.nanos })
    } else {
        None
    }
}

/// `now` moved back by `age_secs` seconds in `chrono`:
/// `DateTime::from_timestamp`, `TimeDelta::try_seconds` and
/// `DateTime::checked_sub_signed`, read back by `timestamp` and
/// `timestamp_subsec_nanos`. Each step gives `None` exactly when its value
/// leaves the range of its type, so the result is `Some` exactly when `now`,
/// the age and the moved instant are in range; the seconds then go back by the
/// age and the nanoseconds stay.
#[verifier::external_body]
fn checked_sub_seconds(now: Timestamp, age_secs: i64) -> (r: Option<Timestamp>)
    requires
        now.nanos < 1_000_000_000,
    ensures
        r == cutoff_of(now, age_secs as int),
{
    let start = chrono::DateTime::from_timestamp(now.secs, now.nanos)?;
    let delta = chrono::TimeDelta::try_seconds(age_secs)?;
    let cutoff = start.checked_sub_signed(delta)?;
    Some(Timestamp { secs: cutoff.timestamp(), nanos: cutoff.timestamp_subsec_nanos() })
}

/// The latest creation time a VM may have to count as older than the age:
/// `now` less `age_secs` seconds, or `None` where `chrono` cannot hold `now`,
/// the age or the result.
pub fn prune_cutoff(now: Timestamp, age_secs: i64) -> (r: Option<Timestamp>)
    requires
        now.nanos < 1_000_000_000,
    ensures
        r == cutoff_of(now, age_secs as int),
{
    checked_sub_seconds(now, age_secs)
}

// ---------------------------------------------------------------------------
// Choosing what to remove
// ---------------------------------------------------------------------------
/// `prune` removes a VM (seen with what the state knows of it) whose name
/// starts with the prefix, whose OS is the one asked for, and which was
/// created no later than the cutoff; a filter not given lets every VM pass.
pub open spec fn prunable(
    vm: VmInfoView,
    prefix: Seq<char>,
    os: Option<OsType>,
    cutoff: Option<Timestamp>,
) -> bool {
    &&& starts_with(vm.name, prefix)
    &&& match os {
        Some(o) => vm.os == Some(os_name(o)),
        None => true,
    }
    &&& match cutoff {
        Some(c) => vm.created_at matches Some(t) && ts_le(t, c),
        None => true,
    }
}

/// The VMs `prune` removes, in listing order, with what the state knows.
pub open spec fn prune_selection(
    vms: Seq<VmInfoView>,
    state: Map<Seq<char>, VmMetadataView>,
    prefix: Seq<char>,
    os: Option<OsType>,
    cutoff: Option<Timestamp>,
) -> Seq<VmInfoView>
    decreases vms.len(),
{
    if vms.len() == 0 {
        seq![]
    } else {
        let before = prune_selection(vms.drop_last(), state, prefix, os, cutoff);
        let vm = annotated(vms.last(), state);
        if prunable(vm, prefix, os, cutoff) {
            before.push(vm)
        } else {
            before
        }
    }
}

fn prunable_exec(vm: &VmInfo, prefix: &str, os: Option<OsType>, cutoff: Option<Timestamp>) -> (r:
    bool)
    ensures
        r == prunable(vm@, prefix@, os, cutoff),
{
    if !starts_with_exec(vm.name.as_str(), prefix) {
        return false;
    }
    match os {
        Some(o) => {
            let same = match &vm.os {
                Some(v) => str_eq(v.as_str(), o.as_str()),
                None => false,
            };
            if !same {
                return false;
            }
        },
        None => {},
    }
    match cutoff {
        Some(c) => match vm.created_at {
            Some(t) => t.le(&c),
            None => false,
        },
        None => true,
    }
}

/// The VMs to remove.
pub fn select_prune_candidates(
    vms: &Vec<VmInfo>,
    state: &StateFile,
    prefix: &str,
    os: Option<OsType>,
    cutoff: Option<Timestamp>,
) -> (r: Vec<VmInfo>)
    ensures
        vms_view(r@) == prune_selection(vms_view(vms@), state@, prefix@, os, cutoff),
{
    let ghost all = vms_view(vms@);
    let mut out: Vec<VmInfo> = Vec::new();
    let mut i: usize = 0;
    while i < vms.len()
        invariant
            all == vms_view(vms@),
            i <= vms.len(),
            vms_view(out@) == prune_selection(all.take(i as int), state@, prefix@, os, cutoff),
        decreases vms.len() - i,
    {
        assert(all.take(i + 1).drop_last() =~= all.take(i as int));
        assert(all.take(i + 1).last() == vms@[i as int]@);
        let vm = annotated_copy(&vms[i], state);
        if prunable_exec(&vm, prefix, os, cutoff) {
            let ghost before = out@;
            out.push(vm);
            assert(vms_view(out@) =~= vms_view(before).push(vm@));
        }
        i += 1;
    }
    assert(all.take(vms.len() as int) =~= all);
    out
}

/// Only what the filters allow is removed: every chosen VM starts with the
/// prefix, has the OS asked for, and is old enough.
pub proof fn law_prune_respects_filters(
    vms: Seq<VmInfoView>,
    state: Map<Seq<char>, VmMetadataView>,
    prefix: Seq<char>,
    os: Option<OsType>,
    cutoff: Option<Timestamp>,
)
    ensures
        forall|i: int|
            0 <= i < prune_selection(vms, state, prefix, os, cutoff).len() ==> prunable(
                #[trigger] prune_selection(vms, state, prefix, os, cutoff)[i],
                prefix,
                os,
                cutoff,
            ),
    decreases vms.len(),
{
    if vms.len() > 0 {
        law_prune_respects_filters(vms.drop_last(), state, prefix, os, cutoff);
        let sel = prune_selection(vms, state, prefix, os, cutoff);
        let before = prune_selection(vms.drop_last(), state, prefix, os, cutoff);
        assert forall|i: int| 0 <= i < sel.len() implies prunable(#[trigger] sel[i], prefix, os, cutoff) by {
            if i < before.len() {
                assert(sel[i] == before[i]);
            }
        }
    }
}

/// Each filter holds on its own, whatever the others are: a VM that `prune`
/// chooses starts with the prefix; with `--os o` its recorded OS is `o`'s
/// name; with a cutoff it has a recorded creation time no later than it.
pub proof fn law_prune_filters_each_hold(
    vms: Seq<VmInfoView>,
    state: Map<Seq<char>, VmMetadataView>,
    prefix: Seq<char>,
    os: Option<OsType>,
    cutoff: Option<Timestamp>,
    i: int,
)
    requires
        0 <= i < prune_selection(vms, state, prefix, os, cutoff).len(),
    ensures
        ({
            let vm = prune_selection(vms, state, prefix, os, cutoff)[i];
            &&& vm.name.len() >= prefix.len() && vm.name.subrange(0, prefix.len() as int) == prefix
            &&& (os matches Some(o) ==> vm.os == Some(os_name(o)))
            &&& (cutoff matches Some(c) ==> (vm.created_at matches Some(t) && (t.secs < c.secs || (
            t.secs == c.secs && t.nanos <= c.nanos))))
        }),
{
    law_prune_respects_filters(vms, state, prefix, os, cutoff);
}

/// `prune` leaves out no VM that passes every filter: a listed VM (seen with
/// what the state knows of it) whose name starts with the prefix, whose
/// recorded OS is the one asked for, and whose recorded creation time is no
/// later than the cutoff is among those chosen.
pub proof fn law_prune_takes_every_match(
    vms: Seq<VmInfoView>,
    state: Map<Seq<char>, VmMetadataView>,
    prefix: Seq<char>,
    os: Option<OsType>,
    cutoff: Option<Timestamp>,
    j: int,
)
    requires
        0 <= j < vms.len(),
        ({
            let vm = annotated(vms[j], state);
            &&& vm.name.len() >= prefix.len() && vm.name.subrange(0, prefix.len() as int) == prefix
            &&& (os matches Some(o) ==> vm.os == Some(os_name(o)))
            &&& (cutoff matches Some(c) ==> (vm.created_at matches Some(t) && (t.secs < c.secs || (
            t.secs == c.secs && t.nanos <= c.nanos))))
        }),
    ensures
        prune_selection(vms, state, prefix, os, cutoff).contains(annotated(vms[j], state)),
    decreases vms.len(),
{
    let sel = prune_selection(vms, state, prefix, os, cutoff);
    let v = annotated(vms[j], state);
    if j == vms.len() - 1 {
        assert(prunable(v, prefix, os, cutoff));
        assert(sel[sel.len() - 1] == v);
    } else {
        let rest = vms.drop_last();
        assert(rest[j] == vms[j]);
        law_prune_takes_every_match(rest, state, prefix, os, cutoff, j);
        let before = prune_selection(rest, state, prefix, os, cutoff);
        let k = choose|k: int| 0 <= k < before.len() && before[k] == v;
        assert(sel[k] == v);
    }
}

/// `prune` asks first unless `--yes` or `--dry-run` is given.
pub fn prune_needs_confirmation(yes: bool, dry_run: bool) -> (r: bool)
    ensures
        r == (!yes && !dry_run),
{
    !yes && !dry_run
}

/// The question `prune` asks.
pub fn prune_prompt(count: usize, prefix: &str) -> (r: String)
    ensures
        r@ == "remove "@ + decimal(count as nat) + " vm(s) matching prefix '"@ + prefix@
            + "' now?"@,
{
    let mut r = to_owned("remove ");
    push_decimal(&mut r, count as u64);
    push_str(&mut r, " vm(s) matching prefix '");
    push_str(&mut r, prefix);
    push_str(&mut r, "' now?");
    r
}

// ---------------------------------------------------------------------------
// Summing up
// ---------------------------------------------------------------------------
/// The result reported for one chosen VM: a preview under `--dry-run`,
/// else whether stopping and deleting it worked.
pub open spec fn removal_result(
    name: Seq<char>,
    dry_run: bool,
    outcome: Result<(), String>,
) -> OperationResultView {
    if dry_run {
        plain_result(true, "rm"@, name, "dry-run: would remove '"@ + name + "'"@)
    } else {
        match outcome {
            Ok(()) => plain_result(true, "rm"@, name, "removed successfully"@),
            Err(e) => plain_result(
                false,
                "rm"@,
                name,
                "failed to remove '"@ + name + "': "@ + e@,
            ),
        }
    }
}

/// How many removals worked.
pub open spec fn count_ok(outcomes: Seq<Result<(), String>>) -> nat
    decreases outcomes.len(),
{
    if outcomes.len() == 0 {
        0
    } else {
        count_ok(outcomes.drop_last()) + if outcomes.last() is Ok {
            1nat
        } else {
            0nat
        }
    }
}

proof fn lemma_count_ok_le(outcomes: Seq<Result<(), String>>)
    ensures
        count_ok(outcomes) <= outcomes.len(),
    decreases outcomes.len(),
{
    if outcomes.len() > 0 {
        lemma_count_ok_le(outcomes.drop_last());
    }
}

/// The summary of a prune: the outcomes of the removals are those of the
/// chosen VMs in order (none are needed under `--dry-run`).
pub open spec fn summary_of(
    names: Seq<Seq<char>>,
    dry_run: bool,
    outcomes: Seq<Result<(), String>>,
) -> DeleteSummaryRef {
    DeleteSummaryRef {
        matched: names.len(),
        skipped: if dry_run {
            names.len()
        } else {
            0
        },
        deleted: if dry_run {
            0
        } else {
            count_ok(outcomes)
        },
        failed: if dry_run {
            0
        } else {
            (names.len() - count_ok(outcomes)) as nat
        },
        results: Seq::new(
            names.len(),
            |i: int|
                removal_result(
                    names[i],
                    dry_run,
                    if dry_run {
                        Ok(())
                    } else {
                        outcomes[i]
                    },
                ),
        ),
    }
}

/// The counts and results a summary must hold.
pub struct DeleteSummaryRef {
    pub matched: nat,
    pub skipped: nat,
    pub deleted: nat,
    pub failed: nat,
    pub results: Seq<OperationResultView>,
}

/// The names of a list of VMs.
pub open spec fn names_of(vms: Seq<VmInfo>) -> Seq<Seq<char>> {
    vms.map_values(|v: VmInfo| v.name@)
}

/// Sums up a prune from the chosen VMs and what removing each of them gave.
pub fn prune_summary(candidates: &Vec<VmInfo>, dry_run: bool, outcomes: &Vec<Result<(), String>>) -> (r:
    DeleteSummary)
    requires
        dry_run || outcomes@.len() == candidates@.len(),
    ensures
        ({
            let want = summary_of(names_of(candidates@), dry_run, outcomes@);
            &&& r.matched == want.matched
            &&& r.skipped == want.skipped
            &&& r.deleted == want.deleted
            &&& r.failed == want.failed
            &&& r@.results == want.results
        }),
        r.matched == r.skipped + r.deleted + r.failed,
{
    let ghost names = names_of(candidates@);
    let n = candidates.len();
    let mut results: Vec<OperationResult> = Vec::new();
    let mut deleted: usize = 0;
    let mut failed: usize = 0;
    let mut i: usize = 0;
    while i < n
        invariant
            n == candidates@.len(),
            names == names_of(candidates@),
            dry_run || outcomes@.len() == n,
            i <= n,
            results@.len() == i,
            forall|j: int|
                0 <= j < i ==> (#[trigger] results@[j])@ == removal_result(
                    names[j],
                    dry_run,
                    if dry_run {
                        Ok(())
                    } else {
                        outcomes@[j]
                    },
                ),
            dry_run ==> deleted == 0 && failed == 0,
            !dry_run ==> deleted == count_ok(outcomes@.take(i as int)) && failed + deleted == i,
        decreases n - i,
    {
        let name = candidates[i].name.as_str();
        assert(names[i as int] == name@);
        if dry_run {
            let mut msg = to_owned("dry-run: would remove '");
            push_str(&mut msg, name);
            push_str(&mut msg, "'");
            results.push(OperationResult::new(true, "rm", name, msg));
        } else {
            assert(outcomes@.take(i + 1).drop_last() =~= outcomes@.take(i as int));
            proof {
                lemma_count_ok_le(outcomes@.take(i as int));
            }
            match &outcomes[i] {
                Ok(()) => {
                    deleted += 1;
                    results.push(
                        OperationResult::new(true, "rm", name, to_owned("removed successfully")),
                    );
                },
                Err(e) => {
                    failed += 1;
                    let mut msg = to_owned("failed to remove '");
                    push_str(&mut msg, name);
                    push_str(&mut msg, "': ");
                    push_str(&mut msg, e.as_str());
                    results.push(OperationResult::new(false, "rm", name, msg));
                },
            }
        }
        i += 1;
    }
    if !dry_run {
        assert(outcomes@.take(n as int) =~= outcomes@);
    }
    let skipped = if dry_run {
        n
    } else {
        0
    };
    let r = DeleteSummary { matched: n, skipped, deleted, failed, results };
    assert(r@.results =~= summary_of(names, dry_run, outcomes@).results);
    r
}

/// `--dry-run` removes nothing: every chosen VM is only previewed.
pub proof fn law_dry_run_removes_nothing(names: Seq<Seq<char>>, outcomes: Seq<Result<(), String>>)
    ensures
        ({
            let s = summary_of(names, true, outcomes);
            &&& s.deleted == 0 && s.failed == 0 && s.skipped == names.len()
            &&& forall|i: int|
                0 <= i < names.len() ==> (#[trigger] s.results[i]).ok && s.results[i].message
                    == "dry-run: would remove '"@ + names[i] + "'"@
        }),
{
}

/// Forgets, in the state, every chosen VM whose removal worked.
pub open spec fn forget_removed(
    state: Map<Seq<char>, VmMetadataView>,
    names: Seq<Seq<char>>,
    outcomes: Seq<Result<(), String>>,
) -> Map<Seq<char>, VmMetadataView>
    decreases names.len(),
{
    if names.len() == 0 || outcomes.len() < names.len() {
        state
    } else {
        let before = forget_removed(state, names.drop_last(), outcomes.take(names.len() - 1));
        if outcomes[names.len() - 1] is Ok {
            before.remove(names.last())
        } else {
            before
        }
    }
}

/// Updates the state after removals.
pub fn forget_removed_vms(
    state: &mut StateFile,
    candidates: &Vec<VmInfo>,
    outcomes: &Vec<Result<(), String>>,
)
    requires
        outcomes@.len() == candidates@.len(),
    ensures
        final(state)@ == forget_removed(old(state)@, names_of(candidates@), outcomes@),
{
    let ghost names = names_of(candidates@);
    let ghost start = state@;
    let mut i: usize = 0;
    while i < candidates.len()
        invariant
            names == names_of(candidates@),
            outcomes@.len() == candidates@.len(),
            i <= candidates@.len(),
            state@ == forget_removed(start, names.take(i as int), outcomes@.take(i as int)),
        decreases candidates.len() - i,
    {
        proof {
            assert(names.take(i + 1).drop_last() =~= names.take(i as int));
            assert(outcomes@.take(i + 1).take(i as int) =~= outcomes@.take(i as int));
            assert(names.take(i + 1).last() == candidates@[i as int].name@);
        }
        if outcomes[i].is_ok() {
            state.remove(candidates[i].name.as_str());
        }
        i += 1;
    }
    assert(names.take(candidates.len() as int) =~= names);
    assert(outcomes@.take(candidates.len() as int) =~= outcomes@);
}

/// After a prune, every VM whose removal worked is gone from the state, and
/// every name no removal touched keeps what it had.
pub proof fn law_forget_removed(
    state: Map<Seq<char>, VmMetadataView>,
    names: Seq<Seq<char>>,
    outcomes: Seq<Result<(), String>>,
    k: Seq<char>,
)
    requires
        outcomes.len() == names.len(),
    ensures
        (exists|i: int| 0 <= i < names.len() && names[i] == k && outcomes[i] is Ok) ==> !forget_removed(
            state,
            names,
            outcomes,
        ).contains_key(k),
        (forall|i: int| 0 <= i < names.len() ==> names[i] != k) ==> forget_removed(
            state,
            names,
            outcomes,
        ).contains_key(k) == state.contains_key(k) && (state.contains_key(k) ==> forget_removed(
            state,
            names,
            outcomes,
        )[k] == state[k]),
    decreases names.len(),
{
    if names.len() > 0 {
        let n = names.len() - 1;
        let pn = names.drop_last();
        let po = outcomes.take(n);
        law_forget_removed(state, pn, po, k);
        if exists|i: int| 0 <= i < names.len() && names[i] == k && outcomes[i] is Ok {
            let i = choose|i: int| 0 <= i < names.len() && names[i] == k && outcomes[i] is Ok;
            if i < n {
                assert(pn[i] == k && po[i] is Ok);
            }
        }
        if forall|i: int| 0 <= i < names.len() ==> names[i] != k {
            assert forall|i: int| 0 <= i < pn.len() implies pn[i] != k by {
                assert(pn[i] == names[i]);
            }
            assert(names[n] != k);
        }
    }
}

/// The line shown outside JSON mode after a prune.
pub open spec fn summary_line(s: crate::models::DeleteSummaryView) -> Seq<char> {
    "summary: matched "@ + decimal(s.matched as nat) + ", deleted "@ + decimal(s.deleted as nat)
        + ", failed "@ + decimal(s.failed as nat) + ", skipped "@ + decimal(s.skipped as nat)
}

/// How a prune ends: with any failure it is a partial failure, reported as
/// such along with the summary.
pub fn prune_outcome(summary: DeleteSummary) -> (o: Outcome<DeleteSummary>)
    ensures
        o.response.command@ == "prune"@,
        o.response.ok == (summary.failed == 0),
        o.response.data matches Some(d) && d@ == summary@,
        o.response.warnings@.len() == 0,
        summary.failed > 0 ==> (o.response.error matches Some(e) && e@ == "partial failure"@),
        summary.failed == 0 ==> o.response.error is None,
        lines_view(o.lines@) == seq![LineView::Info(summary_line(summary@))],
        o.code == if summary.failed > 0 {
            ExitCode::PartialFailure
        } else {
            ExitCode::Success
        },
{
    let ghost sv = summary@;
    let mut line = to_owned("summary: matched ");
    push_decimal(&mut line, summary.matched as u64);
    push_str(&mut line, ", deleted ");
    push_decimal(&mut line, summary.deleted as u64);
    push_str(&mut line, ", failed ");
    push_decimal(&mut line, summary.failed as u64);
    push_str(&mut line, ", skipped ");
    push_decimal(&mut line, summary.skipped as u64);
    let mut lines: Vec<Line> = Vec::new();
    lines.push(Line::Info(line));
    let failed = summary.failed > 0;
    let response = if failed {
        CommandResponse {
            command: to_owned("prune"),
            ok: false,
            data: Some(summary),
            warnings: Vec::new(),
            error: Some(to_owned("partial failure")),
        }
    } else {
        CommandResponse::success("prune", summary)
    };
    let o = Outcome {
        response,
        lines,
        code: if failed {
            ExitCode::PartialFailure
        } else {
            ExitCode::Success
        },
    };
    assert(lines_view(o.lines@) =~= seq![LineView::Info(summary_line(sv))]);
    o
}

/// How a prune ends when `--older-than` is refused.
pub fn older_than_outcome(err: &OlderThanError) -> (o: Outcome<DeleteSummary>)
    ensures
        err_outcome(o, "prune"@, older_than_message(err@), ExitCode::InvalidUsage),
{
    reply_err("prune", err.message(), ExitCode::InvalidUsage)
}

} // verus!
