//! The decisions of each subcommand. Every command ends in an `Outcome`: the
//! JSON response, the lines shown when JSON mode is off, and the exit code.
//! The binary performs the external steps in between and hands their results
//! to these functions.
use vstd::prelude::*;
use crate::errors::ExitCode;
use crate::models::{CommandResponse, OperationResult, OperationResultView};

pub mod clone;
pub mod delete_all;
pub mod init;
pub mod lifecycle;
pub mod spawn;

verus! {

/// A line shown outside JSON mode.
pub enum Line {
    /// An informational note on standard error.
    Info(String),
    /// An error note on standard error.
    Error(String),
    /// Plain output on standard output.
    Stdout(String),
}

/// `Line` over plain values.
pub enum LineView {
    Info(Seq<char>),
    Error(Seq<char>),
    Stdout(Seq<char>),
}

impl View for Line {
    type V = LineView;

    open spec fn view(&self) -> LineView {
        match self {
            Line::Info(s) => LineView::Info(s@),
            Line::Error(s) => LineView::Error(s@),
            Line::Stdout(s) => LineView::Stdout(s@),
        }
    }
}

/// The plain values of a list of lines.
pub open spec fn lines_view(v: Seq<Line>) -> Seq<LineView> {
    v.map_values(|l: Line| l@)
}

/// How a command ends.
pub struct Outcome<T> {
    pub response: CommandResponse<T>,
    pub lines: Vec<Line>,
    pub code: ExitCode,
}

/// A successful single-target outcome: the result is the response's data
/// and its message the only line.
pub open spec fn ok_outcome(
    o: Outcome<OperationResult>,
    command: Seq<char>,
    result: OperationResultView,
) -> bool {
    &&& o.response.command@ == command
    &&& o.response.ok
    &&& o.response.data matches Some(d) && d@ == result
    &&& o.response.warnings@.len() == 0
    &&& o.response.error is None
    &&& lines_view(o.lines@) == seq![LineView::Info(result.message)]
    &&& o.code == ExitCode::Success
}

/// A failed outcome: the message is the response's error and the only line.
pub open spec fn err_outcome<T>(
    o: Outcome<T>,
    command: Seq<char>,
    message: Seq<char>,
    code: ExitCode,
) -> bool {
    &&& o.response.command@ == command
    &&& !o.response.ok
    &&& o.response.data is None
    &&& o.response.warnings@.len() == 0
    &&& o.response.error matches Some(e) && e@ == message
    &&& lines_view(o.lines@) == seq![LineView::Error(message)]
    &&& o.code == code
}

/// The outcome of a single-target action that succeeded.
pub fn reply_ok(command: &str, result: OperationResult) -> (o: Outcome<OperationResult>)
    ensures
        ok_outcome(o, command@, result@),
{
    let ghost rv = result@;
    let line = Line::Info(result.message.clone());
    let mut lines: Vec<Line> = Vec::new();
    lines.push(line);
    let o = Outcome { response: CommandResponse::success(command, result), lines, code: ExitCode::Success };
    assert(lines_view(o.lines@) =~= seq![LineView::Info(rv.message)]);
    o
}

/// The outcome of an action that failed with `message`.
pub fn reply_err<T>(command: &str, message: String, code: ExitCode) -> (o: Outcome<T>)
    ensures
        err_outcome(o, command@, message@, code),
{
    let ghost m = message@;
    let mut lines: Vec<Line> = Vec::new();
    lines.push(Line::Error(message.clone()));
    let o = Outcome { response: CommandResponse::failure(command, message), lines, code };
    assert(lines_view(o.lines@) =~= seq![LineView::Error(m)]);
    o
}

} // verus!
