//! `init`: writes the boilerplate config file, refusing to overwrite one
//! unless `--force` is given.
use vstd::prelude::*;
use crate::errors::ExitCode;
use crate::models::{CommandResponse, OperationResult, plain_result};
use crate::text::{push_str, to_owned};
use super::{Line, LineView, Outcome, err_outcome, lines_view, ok_outcome, reply_err, reply_ok};

verus! {

/// The message of a previewed `init`.
pub open spec fn init_preview(path: Seq<char>, exists: bool) -> Seq<char> {
    if exists {
        "dry-run: would overwrite config at '"@ + path + "'"@
    } else {
        "dry-run: would write config to '"@ + path + "'"@
    }
}

/// The outcome of `init` under `--dry-run`.
pub fn init_dry_run(path: &str, exists: bool) -> (o: Outcome<OperationResult>)
    ensures
        ok_outcome(o, "init"@, plain_result(true, "init"@, path@, init_preview(path@, exists))),
{
    let mut msg = if exists {
        to_owned("dry-run: would overwrite config at '")
    } else {
        to_owned("dry-run: would write config to '")
    };
    push_str(&mut msg, path);
    push_str(&mut msg, "'");
    reply_ok("init", OperationResult::new(true, "init", path, msg))
}

/// `init` leaves an existing config file alone unless forced.
pub fn init_blocked(exists: bool, force: bool) -> (r: bool)
    ensures
        r == (exists && !force),
{
    exists && !force
}

/// How `init` ends when the config file exists and `--force` is not given.
pub fn init_conflict(path: &str) -> (o: Outcome<OperationResult>)
    ensures
        err_outcome(
            o,
            "init"@,
            "config file '"@ + path@ + "' already exists, rerun with --force to overwrite"@,
            ExitCode::Conflict,
        ),
{
    let mut msg = to_owned("config file '");
    push_str(&mut msg, path);
    push_str(&mut msg, "' already exists, rerun with --force to overwrite");
    reply_err("init", msg, ExitCode::Conflict)
}

/// The hint shown after the config file is written.
pub open spec fn init_hint() -> Seq<char> {
    "set templates.linux and templates.macos to existing UTM VM template names"@
}

/// How `init` ends once the config file is written.
pub fn init_written(path: &str) -> (o: Outcome<OperationResult>)
    ensures
        ({
            let result = plain_result(true, "init"@, path@, "wrote config to '"@ + path@ + "'"@);
            &&& o.response.command@ == "init"@
            &&& o.response.ok
            &&& o.response.data matches Some(d) && d@ == result
            &&& o.response.warnings@.len() == 0
            &&& o.response.error is None
            &&& lines_view(o.lines@) == seq![
                LineView::Info(result.message),
                LineView::Info(init_hint()),
            ]
            &&& o.code == ExitCode::Success
        }),
{
    let mut msg = to_owned("wrote config to '");
    push_str(&mut msg, path);
    push_str(&mut msg, "'");
    let ghost m = msg@;
    let mut lines: Vec<Line> = Vec::new();
    lines.push(Line::Info(msg.clone()));
    lines.push(
        Line::Info(
            to_owned("set templates.linux and templates.macos to existing UTM VM template names"),
        ),
    );
    let o = Outcome {
        response: CommandResponse::success("init", OperationResult::new(true, "init", path, msg)),
        lines,
        code: ExitCode::Success,
    };
    assert(lines_view(o.lines@) =~= seq![LineView::Info(m), LineView::Info(init_hint())]);
    o
}

} // verus!
