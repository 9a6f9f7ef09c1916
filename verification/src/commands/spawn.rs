//! `run`: clones a template VM, starts it and opens it in UTM, retrying the
//! clone under a new name when a failed clone left that name behind, and
//! cleaning up when starting or opening fails.
use vstd::prelude::*;
use crate::cli::CloneArgs;
use crate::config::EffectiveConfig;
use crate::errors::ExitCode;
use crate::models::{OperationResult, opt_view, plain_result};
use crate::naming::{NameError, NameErrorView, generate_name, generated, is_taken, name_result_view, taken};
use crate::text::{push_str, to_owned};
use super::{Outcome, err_outcome, ok_outcome, reply_err, reply_ok};
use super::lifecycle::{chosen_prefix, choose_prefix};

verus! {

/// How many times `run` tries to clone.
pub const CLONE_ATTEMPTS: u8 = 3;

/// What `run` does after a clone attempt.
#[derive(Copy, Clone, Debug, PartialEq, Eq, Structural)]
pub enum CloneStep {
    /// Go on to start the VM.
    Proceed,
    /// Try again under a freshly generated name.
    Retry,
    /// Give up with the clone's error.
    Fail,
}

/// The next step after attempt `attempt` (counting from 0): a clone that
/// worked goes on; a failed clone whose name shows up in the listing
/// afterwards is retried under a new name while attempts are left, and goes
/// on after the last one; any other failure ends the command.
pub open spec fn next_clone_step(attempt: u8, clone_ok: bool, name_listed: bool) -> CloneStep {
    if clone_ok {
        CloneStep::Proceed
    } else if name_listed {
        if attempt + 1 < CLONE_ATTEMPTS {
            CloneStep::Retry
        } else {
            CloneStep::Proceed
        }
    } else {
        CloneStep::Fail
    }
}

/// Decides the step after a clone attempt.
pub fn clone_step(attempt: u8, clone_ok: bool, name_listed: bool) -> (r: CloneStep)
    ensures
        r == next_clone_step(attempt, clone_ok, name_listed),
{
    if clone_ok {
        CloneStep::Proceed
    } else if name_listed {
        if attempt < CLONE_ATTEMPTS - 1 {
            CloneStep::Retry
        } else {
            CloneStep::Proceed
        }
    } else {
        CloneStep::Fail
    }
}

/// At most the three attempts are made: every attempt before the last either
/// ends the loop or retries, and the last one never retries.
pub proof fn law_clone_attempts_bounded(attempt: u8, clone_ok: bool, name_listed: bool)
    requires
        attempt < CLONE_ATTEMPTS,
    ensures
        next_clone_step(attempt, clone_ok, name_listed) == CloneStep::Retry ==> attempt + 1
            < CLONE_ATTEMPTS,
        clone_ok ==> next_clone_step(attempt, clone_ok, name_listed) == CloneStep::Proceed,
{
}

/// What `retry_vm_name` may give for the command's arguments and
/// configuration against the names listed now.
pub open spec fn retry_generated(
    r: Result<Seq<char>, NameErrorView>,
    args: CloneArgs,
    cfg: crate::config::EffectiveConfigView,
    existing: Seq<String>,
) -> bool {
    generated(
        r,
        chosen_prefix(opt_view(args.prefix), cfg.default_prefix),
        cfg.naming_template,
        cfg.naming_rand_len,
        cfg.naming_max_retries,
        args.os_type,
        None,
        false,
        None,
        existing,
    )
}

/// Generates a fresh name for a retry: the prefix given, else the configured
/// one, and the configured template, against the names listed now.
pub fn retry_vm_name(args: &CloneArgs, cfg: &EffectiveConfig, existing: &Vec<String>) -> (r: Result<
    String,
    NameError,
>)
    ensures
        retry_generated(name_result_view(r), *args, cfg@, existing@),
{
    let prefix = choose_prefix(&args.prefix, cfg.default_prefix.as_str());
    generate_name(
        prefix.as_str(),
        cfg.naming_template.as_str(),
        cfg.naming_rand_len,
        cfg.naming_max_retries,
        args.os_type,
        None,
        false,
        None,
        existing,
    )
}

/// The outcome of `run` under `--dry-run`.
pub fn run_dry_run(name: &str, template: &str) -> (o: Outcome<OperationResult>)
    ensures
        ok_outcome(
            o,
            "run"@,
            plain_result(
                true,
                "run"@,
                name@,
                "dry-run: would clone, start, and open '"@ + name@ + "' from '"@ + template@
                    + "'"@,
            ),
        ),
{
    let mut msg = to_owned("dry-run: would clone, start, and open '");
    push_str(&mut msg, name);
    push_str(&mut msg, "' from '");
    push_str(&mut msg, template);
    push_str(&mut msg, "'");
    reply_ok("run", OperationResult::new(true, "run", name, msg))
}

/// The warning printed before a VM that could not be started or opened is
/// removed again.
pub fn orphan_warning(name: &str) -> (r: String)
    ensures
        r@ == "warning: cleaning up orphaned vm '"@ + name@ + "'"@,
{
    let mut r = to_owned("warning: cleaning up orphaned vm '");
    push_str(&mut r, name);
    push_str(&mut r, "'");
    r
}

/// The note shown before starting.
pub fn starting_notice(name: &str) -> (r: String)
    ensures
        r@ == "starting '"@ + name@ + "'"@,
{
    let mut r = to_owned("starting '");
    push_str(&mut r, name);
    push_str(&mut r, "'");
    r
}

/// The note shown before opening.
pub fn opening_notice(name: &str) -> (r: String)
    ensures
        r@ == "opening '"@ + name@ + "' in UTM"@,
{
    let mut r = to_owned("opening '");
    push_str(&mut r, name);
    push_str(&mut r, "' in UTM");
    r
}

/// How `run` ends when cloning, starting or opening failed with `message`.
pub fn run_failed(message: String) -> (o: Outcome<OperationResult>)
    ensures
        err_outcome(o, "run"@, message@, ExitCode::ExternalCommandFailed),
{
    reply_err("run", message, ExitCode::ExternalCommandFailed)
}

/// How `run` ends once the VM is cloned, started and opened.
pub fn run_done(name: &str) -> (o: Outcome<OperationResult>)
    ensures
        ok_outcome(o, "run"@, plain_result(true, "run"@, name@, "run completed successfully"@)),
{
    reply_ok("run", OperationResult::new(true, "run", name, to_owned("run completed successfully")))
}

/// How a finished `run` ended.
pub enum RunEnd {
    /// The VM was cloned, started and opened.
    Completed(String),
    /// Cloning, starting or opening failed with this message.
    Failed(String),
    /// No fresh name could be found for a retry; nothing is shown.
    NoName,
}

/// `RunEnd` over plain values.
pub enum RunEndView {
    Completed(Seq<char>),
    Failed(Seq<char>),
    NoName,
}

impl View for RunEnd {
    type V = RunEndView;

    open spec fn view(&self) -> RunEndView {
        match self {
            RunEnd::Completed(n) => RunEndView::Completed(n@),
            RunEnd::Failed(m) => RunEndView::Failed(m@),
            RunEnd::NoName => RunEndView::NoName,
        }
    }
}

/// The clean-up step that comes next after a failed start or open.
#[derive(Copy, Clone, Debug, PartialEq, Eq, Structural)]
pub enum CleanupStep {
    Stop,
    Delete,
    Forget,
    Report,
}

/// Where `run` stands once a name is chosen and the clone begun.
pub enum RunState {
    /// The clone of `name` (attempt `attempt`, from 0) is under way.
    Cloning { attempt: u8, name: String },
    /// The clone of `name` failed with `error`; the listing shows whether it
    /// left the VM behind.
    Checking { attempt: u8, name: String, error: String },
    /// The listing is read to draw a fresh name for attempt `attempt`.
    Renaming { attempt: u8 },
    /// The VM `name` is being recorded in the state file.
    Recording { name: String },
    /// The VM `name` is being started.
    Starting { name: String },
    /// The VM `name` is being opened in UTM.
    Opening { name: String },
    /// The VM `name` is being removed again after `error`.
    CleaningUp { name: String, error: String, next: CleanupStep },
    /// `run` is over.
    Finished { end: RunEnd },
}

/// `RunState` over plain values.
pub enum RunStateView {
    Cloning { attempt: u8, name: Seq<char> },
    Checking { attempt: u8, name: Seq<char>, error: Seq<char> },
    Renaming { attempt: u8 },
    Recording { name: Seq<char> },
    Starting { name: Seq<char> },
    Opening { name: Seq<char> },
    CleaningUp { name: Seq<char>, error: Seq<char>, next: CleanupStep },
    Finished { end: RunEndView },
}

impl View for RunState {
    type V = RunStateView;

    open spec fn view(&self) -> RunStateView {
        match self {
            RunState::Cloning { attempt, name } => RunStateView::Cloning { attempt: *attempt, name: name@ },
            RunState::Checking { attempt, name, error } => RunStateView::Checking {
                attempt: *attempt,
                name: name@,
                error: error@,
            },
            RunState::Renaming { attempt } => RunStateView::Renaming { attempt: *attempt },
            RunState::Recording { name } => RunStateView::Recording { name: name@ },
            RunState::Starting { name } => RunStateView::Starting { name: name@ },
            RunState::Opening { name } => RunStateView::Opening { name: name@ },
            RunState::CleaningUp { name, error, next } => RunStateView::CleaningUp {
                name: name@,
                error: error@,
                next: *next,
            },
            RunState::Finished { end } => RunStateView::Finished { end: end@ },
        }
    }
}

/// What the binary reports after performing a `RunAction`.
pub enum RunEvent {
    /// The step finished; with the error message where it failed.
    Done(Option<String>),
    /// The names `utmctl list` shows now.
    Listed(Vec<String>),
}

/// `RunEvent` over plain values.
pub enum RunEventView {
    Done(Option<Seq<char>>),
    Listed(Seq<String>),
}

impl View for RunEvent {
    type V = RunEventView;

    open spec fn view(&self) -> RunEventView {
        match self {
            RunEvent::Done(e) => RunEventView::Done(opt_view(*e)),
            RunEvent::Listed(v) => RunEventView::Listed(v@),
        }
    }
}

/// What the binary is to do next for `run`.
pub enum RunAction {
    /// Clone the template under this name.
    Clone(String),
    /// List the VMs.
    List,
    /// Record the new VM in the state file.
    Record(String),
    /// Start the VM, after showing `starting_notice`.
    Start(String),
    /// Open the VM in UTM, after showing `opening_notice`.
    Open(String),
    /// Print this warning on standard error.
    Warn(String),
    /// Stop the VM; its result does not matter.
    Stop(String),
    /// Delete the VM; its result does not matter.
    Delete(String),
    /// Remove the VM from the state file; its result does not matter.
    Forget(String),
    /// End the command.
    Finish(RunEnd),
}

/// `RunAction` over plain values.
pub enum RunActionView {
    Clone(Seq<char>),
    List,
    Record(Seq<char>),
    Start(Seq<char>),
    Open(Seq<char>),
    Warn(Seq<char>),
    Stop(Seq<char>),
    Delete(Seq<char>),
    Forget(Seq<char>),
    Finish(RunEndView),
}

impl View for RunAction {
    type V = RunActionView;

    open spec fn view(&self) -> RunActionView {
        match self {
            RunAction::Clone(n) => RunActionView::Clone(n@),
            RunAction::List => RunActionView::List,
            RunAction::Record(n) => RunActionView::Record(n@),
            RunAction::Start(n) => RunActionView::Start(n@),
            RunAction::Open(n) => RunActionView::Open(n@),
            RunAction::Warn(m) => RunActionView::Warn(m@),
            RunAction::Stop(n) => RunActionView::Stop(n@),
            RunAction::Delete(n) => RunActionView::Delete(n@),
            RunAction::Forget(n) => RunActionView::Forget(n@),
            RunAction::Finish(e) => RunActionView::Finish(e@),
        }
    }
}

/// The error an event reports, if any.
pub open spec fn event_error(e: RunEventView) -> Option<Seq<char>> {
    match e {
        RunEventView::Done(err) => err,
        RunEventView::Listed(_) => None,
    }
}

/// The names an event lists: a listing that failed counts as showing none.
pub open spec fn event_names(e: RunEventView) -> Seq<String> {
    match e {
        RunEventView::Listed(v) => v,
        RunEventView::Done(_) => Seq::empty(),
    }
}

/// The warning shown before a VM is removed again.
pub open spec fn orphan_text(name: Seq<char>) -> Seq<char> {
    "warning: cleaning up orphaned vm '"@ + name + "'"@
}

/// The attempt counts stay below `CLONE_ATTEMPTS`.
pub open spec fn run_wf(s: RunStateView) -> bool {
    match s {
        RunStateView::Cloning { attempt, .. } => attempt < CLONE_ATTEMPTS,
        RunStateView::Checking { attempt, .. } => attempt < CLONE_ATTEMPTS,
        RunStateView::Renaming { attempt } => attempt < CLONE_ATTEMPTS,
        _ => true,
    }
}

/// One step of `run`: the state after an event and the action to take. A
/// clone that worked, or a failed clone that left its VM behind on the last
/// attempt, goes on to record, start and open the VM; a failed clone that
/// left its VM behind earlier draws a fresh name (`named`, read only then)
/// from a new listing and clones again; any other failed clone ends the
/// command with its error. A failed start is followed by a warning, deleting
/// and forgetting the VM; a failed open by a warning, stopping, deleting and
/// forgetting it; then the command ends with the error.
pub open spec fn run_next(
    s: RunStateView,
    e: RunEventView,
    named: Result<Seq<char>, NameErrorView>,
) -> (RunStateView, RunActionView) {
    match s {
        RunStateView::Cloning { attempt, name } => match event_error(e) {
            None => (RunStateView::Recording { name }, RunActionView::Record(name)),
            Some(error) => (RunStateView::Checking { attempt, name, error }, RunActionView::List),
        },
        RunStateView::Checking { attempt, name, error } => match next_clone_step(
            attempt,
            false,
            taken(event_names(e), name),
        ) {
            CloneStep::Proceed => (RunStateView::Recording { name }, RunActionView::Record(name)),
            CloneStep::Retry => (
                RunStateView::Renaming { attempt: (attempt + 1) as u8 },
                RunActionView::List,
            ),
            CloneStep::Fail => (
                RunStateView::Finished { end: RunEndView::Failed(error) },
                RunActionView::Finish(RunEndView::Failed(error)),
            ),
        },
        RunStateView::Renaming { attempt } => match named {
            Ok(name) => (RunStateView::Cloning { attempt, name }, RunActionView::Clone(name)),
            Err(_) => (
                RunStateView::Finished { end: RunEndView::NoName },
                RunActionView::Finish(RunEndView::NoName),
            ),
        },
        RunStateView::Recording { name } => (RunStateView::Starting { name }, RunActionView::Start(name)),
        RunStateView::Starting { name } => match event_error(e) {
            None => (RunStateView::Opening { name }, RunActionView::Open(name)),
            Some(error) => (
                RunStateView::CleaningUp { name, error, next: CleanupStep::Delete },
                RunActionView::Warn(orphan_text(name)),
            ),
        },
        RunStateView::Opening { name } => match event_error(e) {
            None => (
                RunStateView::Finished { end: RunEndView::Completed(name) },
                RunActionView::Finish(RunEndView::Completed(name)),
            ),
            Some(error) => (
                RunStateView::CleaningUp { name, error, next: CleanupStep::Stop },
                RunActionView::Warn(orphan_text(name)),
            ),
        },
        RunStateView::CleaningUp { name, error, next } => match next {
            CleanupStep::Stop => (
                RunStateView::CleaningUp { name, error, next: CleanupStep::Delete },
                RunActionView::Stop(name),
            ),
            CleanupStep::Delete => (
                RunStateView::CleaningUp { name, error, next: CleanupStep::Forget },
                RunActionView::Delete(name),
            ),
            CleanupStep::Forget => (
                RunStateView::CleaningUp { name, error, next: CleanupStep::Report },
                RunActionView::Forget(name),
            ),
            CleanupStep::Report => (
                RunStateView::Finished { end: RunEndView::Failed(error) },
                RunActionView::Finish(RunEndView::Failed(error)),
            ),
        },
        RunStateView::Finished { end } => (RunStateView::Finished { end }, RunActionView::Finish(end)),
    }
}

/// A VM that fails to start is warned about, deleted and forgotten, in that
/// order, whatever those steps give, before `run` ends with the start's error.
pub proof fn law_start_failure_cleans_up(
    name: Seq<char>,
    error: Seq<char>,
    e1: Option<Seq<char>>,
    e2: Option<Seq<char>>,
    e3: Option<Seq<char>>,
    named: Result<Seq<char>, NameErrorView>,
)
    ensures
        ({
            let s0 = RunStateView::Starting { name };
            let (s1, a1) = run_next(s0, RunEventView::Done(Some(error)), named);
            let (s2, a2) = run_next(s1, RunEventView::Done(e1), named);
            let (s3, a3) = run_next(s2, RunEventView::Done(e2), named);
            let (s4, a4) = run_next(s3, RunEventView::Done(e3), named);
            &&& a1 == RunActionView::Warn(orphan_text(name))
            &&& a2 == RunActionView::Delete(name)
            &&& a3 == RunActionView::Forget(name)
            &&& a4 == RunActionView::Finish(RunEndView::Failed(error))
            &&& s4 == RunStateView::Finished { end: RunEndView::Failed(error) }
        }),
{
}

/// A VM that fails to open is warned about, stopped, deleted and forgotten,
/// in that order, whatever those steps give, before `run` ends with the
/// open's error.
pub proof fn law_open_failure_cleans_up(
    name: Seq<char>,
    error: Seq<char>,
    e1: Option<Seq<char>>,
    e2: Option<Seq<char>>,
    e3: Option<Seq<char>>,
    e4: Option<Seq<char>>,
    named: Result<Seq<char>, NameErrorView>,
)
    ensures
        ({
            let s0 = RunStateView::Opening { name };
            let (s1, a1) = run_next(s0, RunEventView::Done(Some(error)), named);
            let (s2, a2) = run_next(s1, RunEventView::Done(e1), named);
            let (s3, a3) = run_next(s2, RunEventView::Done(e2), named);
            let (s4, a4) = run_next(s3, RunEventView::Done(e3), named);
            let (s5, a5) = run_next(s4, RunEventView::Done(e4), named);
            &&& a1 == RunActionView::Warn(orphan_text(name))
            &&& a2 == RunActionView::Stop(name)
            &&& a3 == RunActionView::Delete(name)
            &&& a4 == RunActionView::Forget(name)
            &&& a5 == RunActionView::Finish(RunEndView::Failed(error))
            &&& s5 == RunStateView::Finished { end: RunEndView::Failed(error) }
        }),
{
}

/// A clone that worked is recorded, then started, then opened, and `run`
/// completes when the open works.
pub proof fn law_clone_then_record_start_open(
    attempt: u8,
    name: Seq<char>,
    e1: Option<Seq<char>>,
    named: Result<Seq<char>, NameErrorView>,
)
    ensures
        ({
            let s0 = RunStateView::Cloning { attempt, name };
            let (s1, a1) = run_next(s0, RunEventView::Done(None), named);
            let (s2, a2) = run_next(s1, RunEventView::Done(e1), named);
            let (s3, a3) = run_next(s2, RunEventView::Done(None), named);
            let (s4, a4) = run_next(s3, RunEventView::Done(None), named);
            &&& a1 == RunActionView::Record(name)
            &&& a2 == RunActionView::Start(name)
            &&& a3 == RunActionView::Open(name)
            &&& a4 == RunActionView::Finish(RunEndView::Completed(name))
            &&& s4 == RunStateView::Finished { end: RunEndView::Completed(name) }
        }),
{
}

/// A copy of a `RunEnd`.
fn copy_end(end: &RunEnd) -> (r: RunEnd)
    ensures
        r@ == end@,
{
    match end {
        RunEnd::Completed(n) => RunEnd::Completed(n.clone()),
        RunEnd::Failed(m) => RunEnd::Failed(m.clone()),
        RunEnd::NoName => RunEnd::NoName,
    }
}

/// Where `run` begins once the name is chosen: cloning it, first attempt.
pub fn run_begin(name: String) -> (r: (RunState, RunAction))
    ensures
        r.0@ == (RunStateView::Cloning { attempt: 0, name: name@ }),
        r.1@ == RunActionView::Clone(name@),
{
    let action = RunAction::Clone(name.clone());
    (RunState::Cloning { attempt: 0, name }, action)
}

/// One step of `run`, with the fresh name for a retry already drawn
/// (`named` is read only in the `Renaming` state).
pub fn run_advance(state: RunState, event: RunEvent, named: Result<String, NameError>) -> (r: (
    RunState,
    RunAction,
))
    ensures
        (r.0@, r.1@) == run_next(state@, event@, name_result_view(named)),
        run_wf(state@) ==> run_wf(r.0@),
{
    let ghost ev = event@;
    match state {
        RunState::Cloning { attempt, name } => match event {
            RunEvent::Done(Some(error)) => (RunState::Checking { attempt, name, error }, RunAction::List),
            _ => {
                let action = RunAction::Record(name.clone());
                (RunState::Recording { name }, action)
            },
        },
        RunState::Checking { attempt, name, error } => {
            let names = match event {
                RunEvent::Listed(v) => v,
                RunEvent::Done(_) => Vec::new(),
            };
            assert(names@ == event_names(ev));
            let listed = is_taken(&names, name.as_str());
            match clone_step(attempt, false, listed) {
                CloneStep::Proceed => {
                    let action = RunAction::Record(name.clone());
                    (RunState::Recording { name }, action)
                },
                CloneStep::Retry => (RunState::Renaming { attempt: attempt + 1 }, RunAction::List),
                CloneStep::Fail => {
                    let action = RunAction::Finish(RunEnd::Failed(error.clone()));
                    (RunState::Finished { end: RunEnd::Failed(error) }, action)
                },
            }
        },
        RunState::Renaming { attempt } => match named {
            Ok(name) => {
                let action = RunAction::Clone(name.clone());
                (RunState::Cloning { attempt, name }, action)
            },
            Err(_) => (RunState::Finished { end: RunEnd::NoName }, RunAction::Finish(RunEnd::NoName)),
        },
        RunState::Recording { name } => {
            let action = RunAction::Start(name.clone());
            (RunState::Starting { name }, action)
        },
        RunState::Starting { name } => match event {
            RunEvent::Done(Some(error)) => {
                let action = RunAction::Warn(orphan_warning(name.as_str()));
                (RunState::CleaningUp { name, error, next: CleanupStep::Delete }, action)
            },
            _ => {
                let action = RunAction::Open(name.clone());
                (RunState::Opening { name }, action)
            },
        },
        RunState::Opening { name } => match event {
            RunEvent::Done(Some(error)) => {
                let action = RunAction::Warn(orphan_warning(name.as_str()));
                (RunState::CleaningUp { name, error, next: CleanupStep::Stop }, action)
            },
            _ => {
                let action = RunAction::Finish(RunEnd::Completed(name.clone()));
                (RunState::Finished { end: RunEnd::Completed(name) }, action)
            },
        },
        RunState::CleaningUp { name, error, next } => match next {
            CleanupStep::Stop => {
                let action = RunAction::Stop(name.clone());
                (RunState::CleaningUp { name, error, next: CleanupStep::Delete }, action)
            },
            CleanupStep::Delete => {
                let action = RunAction::Delete(name.clone());
                (RunState::CleaningUp { name, error, next: CleanupStep::Forget }, action)
            },
            CleanupStep::Forget => {
                let action = RunAction::Forget(name.clone());
                (RunState::CleaningUp { name, error, next: CleanupStep::Report }, action)
            },
            CleanupStep::Report => {
                let action = RunAction::Finish(RunEnd::Failed(error.clone()));
                (RunState::Finished { end: RunEnd::Failed(error) }, action)
            },
        },
        RunState::Finished { end } => {
            let action = RunAction::Finish(copy_end(&end));
            (RunState::Finished { end }, action)
        },
    }
}

/// One step of `run`. In the `Renaming` state it draws the fresh name from
/// the listing the event carries (a failed listing counts as empty) with
/// `retry_vm_name`; every other step is exactly `run_next`.
pub fn run_step(args: &CloneArgs, cfg: &EffectiveConfig, state: RunState, event: RunEvent) -> (r: (
    RunState,
    RunAction,
))
    ensures
        run_wf(state@) ==> run_wf(r.0@),
        state@ is Renaming ==> exists|named: Result<Seq<char>, NameErrorView>|
            retry_generated(named, *args, cfg@, event_names(event@)) && (r.0@, r.1@) == run_next(
                state@,
                event@,
                named,
            ),
        !(state@ is Renaming) ==> (r.0@, r.1@) == run_next(
            state@,
            event@,
            Err(NameErrorView::Exhausted(0)),
        ),
{
    let ghost sv = state@;
    match state {
        RunState::Renaming { attempt } => {
            let ghost ev = event@;
            let names = match event {
                RunEvent::Listed(v) => v,
                RunEvent::Done(_) => Vec::new(),
            };
            assert(names@ == event_names(ev));
            let named = retry_vm_name(args, cfg, &names);
            let ghost nv = name_result_view(named);
            let r = run_advance(RunState::Renaming { attempt }, RunEvent::Listed(names), named);
            assert(retry_generated(nv, *args, cfg@, event_names(ev)));
            assert((r.0@, r.1@) == run_next(sv, ev, nv));
            r
        },
        _ => run_advance(state, event, Err(NameError::Exhausted(0))),
    }
}

/// How `run` ends for the binary: the outcome to show, or, when no fresh
/// name was found, only the exit code.
pub fn run_finish(end: RunEnd) -> (r: Result<Outcome<OperationResult>, ExitCode>)
    ensures
        match end@ {
            RunEndView::Completed(n) => r matches Ok(o) && ok_outcome(
                o,
                "run"@,
                plain_result(true, "run"@, n, "run completed successfully"@),
            ),
            RunEndView::Failed(m) => r matches Ok(o) && err_outcome(
                o,
                "run"@,
                m,
                ExitCode::ExternalCommandFailed,
            ),
            RunEndView::NoName => r == Err::<Outcome<OperationResult>, ExitCode>(ExitCode::Conflict),
        },
{
    match end {
        RunEnd::Completed(n) => Ok(run_done(n.as_str())),
        RunEnd::Failed(m) => Ok(run_failed(m)),
        RunEnd::NoName => Err(ExitCode::Conflict),
    }
}

} // verus!
