//! `ls`, `inspect`, `start`, `stop`, `show` and `rm`.
use vstd::prelude::*;
use crate::cli::{OsType, os_name};
use crate::errors::ExitCode;
use crate::models::{
    CommandResponse, OperationResult, VmInfo, VmInfoView, copy_opt, plain_result, vms_view,
};
use crate::state::{StateFile, VmMetadataView};
use crate::text::{push_str, starts_with, starts_with_exec, str_eq, to_owned};
use super::{Line, LineView, Outcome, err_outcome, lines_view, ok_outcome, reply_err, reply_ok};

verus! {

// ---------------------------------------------------------------------------
// Joining `utmctl list` with the state file
// ---------------------------------------------------------------------------
/// A listed VM with what the state file knows of it: its OS and creation
/// time, when the state has it.
pub open spec fn annotated(vm: VmInfoView, state: Map<Seq<char>, VmMetadataView>) -> VmInfoView {
    if state.contains_key(vm.name) {
        VmInfoView { os: state[vm.name].os, created_at: Some(state[vm.name].created_at), ..vm }
    } else {
        vm
    }
}

/// Adds what the state file knows to one VM.
pub fn annotate_vm(vm: &mut VmInfo, state: &StateFile)
    ensures
        final(vm)@ == annotated(old(vm)@, state@),
{
    match state.get(vm.name.as_str()) {
        Some(meta) => {
            vm.os = copy_opt(&meta.os);
            vm.created_at = Some(meta.created_at);
        },
        None => {},
    }
}

/// A copy of a VM with what the state file knows of it.
pub fn annotated_copy(vm: &VmInfo, state: &StateFile) -> (r: VmInfo)
    ensures
        r@ == annotated(vm@, state@),
{
    let mut c = vm.copy();
    annotate_vm(&mut c, state);
    c
}

// ---------------------------------------------------------------------------
// ls
// ---------------------------------------------------------------------------
/// The prefix filter: the one given, else the configured default.
pub open spec fn chosen_prefix(given: Option<Seq<char>>, default: Seq<char>) -> Seq<char> {
    match given {
        Some(p) => p,
        None => default,
    }
}

/// A prefix given on the command line is used as it is, the empty one too
/// (which lets every VM through); the default stands in only when none is
/// given.
pub proof fn law_given_prefix_used_as_is(p: Seq<char>, default: Seq<char>)
    ensures
        chosen_prefix(Some(p), default) == p,
        chosen_prefix(None, default) == default,
        chosen_prefix(Some(seq![]), default).len() == 0,
{
}

/// Picks the prefix filter.
pub fn choose_prefix(given: &Option<String>, default: &str) -> (r: String)
    ensures
        r@ == chosen_prefix(crate::models::opt_view(*given), default@),
        given matches Some(p) ==> r@ == p@,
        given is None ==> r@ == default@,
{
    match given {
        Some(p) => p.clone(),
        None => to_owned(default),
    }
}

/// `ls` keeps a VM whose name starts with the prefix (any name when the
/// prefix is empty) and, with an OS filter, whose recorded OS is that OS.
pub open spec fn listed(
    vm: VmInfoView,
    state: Map<Seq<char>, VmMetadataView>,
    prefix: Seq<char>,
    os: Option<OsType>,
) -> bool {
    &&& (prefix.len() == 0 || starts_with(vm.name, prefix))
    &&& match os {
        Some(o) => state.contains_key(vm.name) && state[vm.name].os == Some(os_name(o)),
        None => true,
    }
}

/// What `ls` shows: the kept VMs, in order, with what the state knows.
pub open spec fn list_selection(
    vms: Seq<VmInfoView>,
    state: Map<Seq<char>, VmMetadataView>,
    prefix: Seq<char>,
    os: Option<OsType>,
) -> Seq<VmInfoView>
    decreases vms.len(),
{
    if vms.len() == 0 {
        seq![]
    } else {
        let before = list_selection(vms.drop_last(), state, prefix, os);
        if listed(vms.last(), state, prefix, os) {
            before.push(annotated(vms.last(), state))
        } else {
            before
        }
    }
}

/// `ls --prefix ""` without an OS filter shows every listed VM, in order.
pub proof fn law_empty_prefix_lists_all(vms: Seq<VmInfoView>, state: Map<Seq<char>, VmMetadataView>)
    ensures
        list_selection(vms, state, seq![], None) == vms.map_values(
            |v: VmInfoView| annotated(v, state),
        ),
    decreases vms.len(),
{
    if vms.len() > 0 {
        law_empty_prefix_lists_all(vms.drop_last(), state);
        assert(vms.map_values(|v: VmInfoView| annotated(v, state)) =~= vms.drop_last().map_values(
            |v: VmInfoView| annotated(v, state),
        ).push(annotated(vms.last(), state)));
    } else {
        assert(vms.map_values(|v: VmInfoView| annotated(v, state)) =~= Seq::<VmInfoView>::empty());
    }
}

/// Whether a name starts with the prefix, or the prefix is empty.
fn prefix_allows(name: &str, prefix: &str) -> (r: bool)
    ensures
        r == (prefix@.len() == 0 || starts_with(name@, prefix@)),
{
    prefix.is_empty() || starts_with_exec(name, prefix)
}

/// Whether the state records `os` for the VM.
fn recorded_os_is(state: &StateFile, name: &str, os: OsType) -> (r: bool)
    ensures
        r == (state@.contains_key(name@) && state@[name@].os == Some(os_name(os))),
{
    match state.get(name) {
        Some(meta) => match &meta.os {
            Some(v) => str_eq(v.as_str(), os.as_str()),
            None => false,
        },
        None => false,
    }
}

/// The VMs `ls` shows.
pub fn select_listed(vms: &Vec<VmInfo>, state: &StateFile, prefix: &str, os: Option<OsType>) -> (r:
    Vec<VmInfo>)
    ensures
        vms_view(r@) == list_selection(vms_view(vms@), state@, prefix@, os),
{
    let ghost all = vms_view(vms@);
    let mut out: Vec<VmInfo> = Vec::new();
    let mut i: usize = 0;
    while i < vms.len()
        invariant
            all == vms_view(vms@),
            i <= vms.len(),
            vms_view(out@) == list_selection(all.take(i as int), state@, prefix@, os),
        decreases vms.len() - i,
    {
        assert(all.take(i + 1).drop_last() =~= all.take(i as int));
        assert(all.take(i + 1).last() == vms@[i as int]@);
        let vm = &vms[i];
        let keep = prefix_allows(vm.name.as_str(), prefix) && match os {
            Some(o) => recorded_os_is(state, vm.name.as_str(), o),
            None => true,
        };
        if keep {
            let ghost before = out@;
            let c = annotated_copy(vm, state);
            out.push(c);
            assert(vms_view(out@) =~= vms_view(before).push(c@));
        }
        i += 1;
    }
    assert(all.take(vms.len() as int) =~= all);
    out
}

/// The outcome of `ls`: the VMs as data, and their names one per line.
pub fn list_outcome(vms: Vec<VmInfo>) -> (o: Outcome<Vec<VmInfo>>)
    ensures
        o.response.command@ == "ls"@,
        o.response.ok,
        o.response.data matches Some(d) && vms_view(d@) == vms_view(vms@),
        o.response.error is None,
        o.response.warnings@.len() == 0,
        lines_view(o.lines@) == vms_view(vms@).map_values(|v: VmInfoView| LineView::Stdout(v.name)),
        o.code == ExitCode::Success,
{
    let mut lines: Vec<Line> = Vec::new();
    let mut i: usize = 0;
    while i < vms.len()
        invariant
            i <= vms.len(),
            lines_view(lines@) == vms_view(vms@).take(i as int).map_values(
                |v: VmInfoView| LineView::Stdout(v.name),
            ),
        decreases vms.len() - i,
    {
        let ghost before = lines@;
        lines.push(Line::Stdout(vms[i].name.clone()));
        assert(lines_view(lines@) =~= lines_view(before).push(LineView::Stdout(vms@[i as int].name@)));
        assert(vms_view(vms@)[i as int] == vms@[i as int]@);
        assert(lines_view(lines@) =~= vms_view(vms@).take(i + 1).map_values(
            |v: VmInfoView| LineView::Stdout(v.name),
        ));
        i += 1;
    }
    assert(vms_view(vms@).take(vms.len() as int) =~= vms_view(vms@));
    Outcome { response: CommandResponse::success("ls", vms), lines, code: ExitCode::Success }
}

// ---------------------------------------------------------------------------
// inspect
// ---------------------------------------------------------------------------
/// The first VM with the given name.
pub open spec fn vm_named(vms: Seq<VmInfoView>, name: Seq<char>) -> Option<VmInfoView>
    decreases vms.len(),
{
    if vms.len() == 0 {
        None
    } else if vms[0].name == name {
        Some(vms[0])
    } else {
        vm_named(vms.drop_first(), name)
    }
}

proof fn lemma_vm_named_skip(vms: Seq<VmInfoView>, name: Seq<char>, i: int)
    requires
        0 <= i <= vms.len(),
        forall|j: int| 0 <= j < i ==> #[trigger] vms[j].name != name,
    ensures
        vm_named(vms, name) == vm_named(vms.skip(i), name),
    decreases i,
{
    if i == 0 {
        assert(vms.skip(0) =~= vms);
    } else {
        assert(vms[0].name != name);
        assert(vms.drop_first().skip(i - 1) =~= vms.skip(i));
        lemma_vm_named_skip(vms.drop_first(), name, i - 1);
    }
}

/// The VM `inspect` reports: the first listed with the name, with what the
/// state knows of it.
pub open spec fn inspected(
    vms: Seq<VmInfoView>,
    state: Map<Seq<char>, VmMetadataView>,
    name: Seq<char>,
) -> Option<VmInfoView> {
    match vm_named(vms, name) {
        Some(vm) => Some(annotated(vm, state)),
        None => None,
    }
}

/// Finds the VM to inspect.
pub fn find_vm(vms: &Vec<VmInfo>, state: &StateFile, name: &str) -> (r: Option<VmInfo>)
    ensures
        match r {
            Some(vm) => inspected(vms_view(vms@), state@, name@) == Some(vm@),
            None => inspected(vms_view(vms@), state@, name@) is None,
        },
{
    let ghost all = vms_view(vms@);
    let mut i: usize = 0;
    while i < vms.len()
        invariant
            all == vms_view(vms@),
            i <= vms.len(),
            forall|j: int| 0 <= j < i ==> #[trigger] all[j].name != name@,
        decreases vms.len() - i,
    {
        if str_eq(vms[i].name.as_str(), name) {
            proof {
                lemma_vm_named_skip(all, name@, i as int);
                assert(all.skip(i as int)[0] == all[i as int]);
            }
            return Some(annotated_copy(&vms[i], state));
        }
        i += 1;
    }
    proof {
        lemma_vm_named_skip(all, name@, i as int);
        assert(all.skip(i as int).len() == 0);
    }
    None
}

/// The outcome of `inspect`: the VM, or an error when it is not listed.
pub fn status_outcome(found: Option<VmInfo>, name: &str) -> (o: Outcome<VmInfo>)
    ensures
        match found {
            Some(vm) => {
                &&& o.response.command@ == "inspect"@
                &&& o.response.ok
                &&& o.response.data matches Some(d) && d@ == vm@
                &&& o.response.error is None
                &&& lines_view(o.lines@) == seq![LineView::Stdout(vm.name@)]
                &&& o.code == ExitCode::Success
            },
            None => err_outcome(o, "inspect"@, "vm '"@ + name@ + "' not found"@, ExitCode::NotFound),
        },
{
    match found {
        Some(vm) => {
            let ghost vv = vm@;
            let mut lines: Vec<Line> = Vec::new();
            lines.push(Line::Stdout(vm.name.clone()));
            let o = Outcome {
                response: CommandResponse::success("inspect", vm),
                lines,
                code: ExitCode::Success,
            };
            assert(lines_view(o.lines@) =~= seq![LineView::Stdout(vv.name)]);
            o
        },
        None => {
            let mut msg = to_owned("vm '");
            push_str(&mut msg, name);
            push_str(&mut msg, "' not found");
            reply_err("inspect", msg, ExitCode::NotFound)
        },
    }
}

// ---------------------------------------------------------------------------
// start, stop, rm
// ---------------------------------------------------------------------------
/// The message of a previewed action.
pub open spec fn dry_run_message(action: Seq<char>, name: Seq<char>) -> Seq<char> {
    "dry-run: would "@ + action + " '"@ + name + "'"@
}

/// The outcome of an action on a VM under `--dry-run`: nothing runs.
pub fn mutation_dry_run(command: &str, action: &str, name: &str) -> (o: Outcome<OperationResult>)
    ensures
        ok_outcome(o, command@, plain_result(true, action@, name@, dry_run_message(action@, name@))),
{
    let mut msg = to_owned("dry-run: would ");
    push_str(&mut msg, action);
    push_str(&mut msg, " '");
    push_str(&mut msg, name);
    push_str(&mut msg, "'");
    reply_ok(command, OperationResult::new(true, action, name, msg))
}

/// The outcome of an action on a VM, from what running it gave: the error
/// message on failure.
pub fn mutation_finished(command: &str, action: &str, name: &str, result: Result<(), String>) -> (o:
    Outcome<OperationResult>)
    ensures
        match result {
            Ok(()) => ok_outcome(
                o,
                command@,
                plain_result(true, action@, name@, action@ + " succeeded for '"@ + name@ + "'"@),
            ),
            Err(e) => err_outcome(o, command@, e@, ExitCode::ExternalCommandFailed),
        },
{
    match result {
        Ok(()) => {
            let mut msg = to_owned(action);
            push_str(&mut msg, " succeeded for '");
            push_str(&mut msg, name);
            push_str(&mut msg, "'");
            reply_ok(command, OperationResult::new(true, action, name, msg))
        },
        Err(e) => reply_err(command, e, ExitCode::ExternalCommandFailed),
    }
}

/// `rm` asks first unless `--yes`, `--force` or `--dry-run` is given.
pub fn delete_needs_confirmation(yes: bool, force: bool, dry_run: bool) -> (r: bool)
    ensures
        r == (!yes && !force && !dry_run),
{
    !yes && !force && !dry_run
}

/// The question `rm` asks.
pub fn delete_prompt(name: &str) -> (r: String)
    ensures
        r@ == "delete vm '"@ + name@ + "' now?"@,
{
    let mut r = to_owned("delete vm '");
    push_str(&mut r, name);
    push_str(&mut r, "' now?");
    r
}

/// The note shown when the user declines.
pub fn aborted_notice() -> (r: &'static str)
    ensures
        r@ == "aborted"@,
{
    "aborted"
}

/// `rm` forgets the VM in the state file only after it was really deleted.
pub fn forget_after_delete(code: ExitCode, dry_run: bool) -> (r: bool)
    ensures
        r == (code == ExitCode::Success && !dry_run),
{
    code == ExitCode::Success && !dry_run
}

// ---------------------------------------------------------------------------
// show
// ---------------------------------------------------------------------------
/// The outcome of `show` under `--dry-run`, reported as command `open`.
pub fn open_dry_run(name: &str) -> (o: Outcome<OperationResult>)
    ensures
        ok_outcome(o, "open"@, plain_result(true, "open"@, name@, dry_run_message("open"@, name@))),
{
    mutation_dry_run("open", "open", name)
}

/// The outcome of `show`, reported as command `open`, from what opening the
/// VM gave.
pub fn open_finished(name: &str, result: Result<(), String>) -> (o: Outcome<OperationResult>)
    ensures
        match result {
            Ok(()) => ok_outcome(o, "open"@, plain_result(true, "open"@, name@, "open succeeded"@)),
            Err(e) => err_outcome(o, "open"@, e@, ExitCode::ExternalCommandFailed),
        },
{
    match result {
        Ok(()) => reply_ok("open", OperationResult::new(true, "open", name, to_owned("open succeeded"))),
        Err(e) => reply_err("open", e, ExitCode::ExternalCommandFailed),
    }
}

} // verus!
