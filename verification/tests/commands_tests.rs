use utmd::cli::{CloneArgs, OsType};
use utmd::commands::clone::{
    choose_template, choose_vm_name, create_done, create_dry_run, name_conflict, new_vm_metadata,
    vm_names,
};
use utmd::commands::delete_all::{
    AgeUnit, OlderThanError, age_seconds, forget_removed_vms, older_than_outcome,
    parse_older_than, prune_cutoff, prune_outcome, prune_prompt, prune_summary,
    select_prune_candidates, split_older_than,
};
use utmd::commands::init::{init_blocked, init_conflict, init_dry_run, init_written};
use utmd::commands::lifecycle::{
    delete_needs_confirmation, delete_prompt, find_vm, forget_after_delete, list_outcome,
    mutation_dry_run, mutation_finished, open_finished, select_listed, status_outcome,
};
use utmd::commands::spawn::{
    CloneStep, RunAction, RunEnd, RunEvent, RunState, clone_step, orphan_warning, run_begin,
    run_done, run_dry_run, run_finish, run_step,
};
use utmd::commands::Line;
use utmd::config::EffectiveConfig;
use utmd::errors::ExitCode;
use utmd::models::{Timestamp, VmInfo};
use utmd::state::{StateFile, VmMetadata, upsert_vm};

fn vm(name: &str) -> VmInfo {
    VmInfo { name: name.to_string(), state: Some("running".to_string()), os: None, created_at: None }
}

fn state_with(entries: &[(&str, &str, i64)]) -> StateFile {
    let mut s = StateFile::new();
    for (name, os, secs) in entries {
        upsert_vm(
            &mut s,
            VmMetadata {
                name: name.to_string(),
                os: Some(os.to_string()),
                template: None,
                created_at: Timestamp { secs: *secs, nanos: 0 },
            },
        );
    }
    s
}

fn line_text(l: &Line) -> String {
    match l {
        Line::Info(s) => format!("info:{}", s),
        Line::Error(s) => format!("error:{}", s),
        Line::Stdout(s) => format!("out:{}", s),
    }
}

#[test]
fn list_filters_by_prefix_and_recorded_os() {
    let vms = vec![vm("utmd-linux-a"), vm("utmd-macos-b"), vm("other")];
    let state = state_with(&[("utmd-linux-a", "linux", 10), ("utmd-macos-b", "macos", 20)]);
    let all = select_listed(&vms, &state, "", None);
    assert_eq!(all.len(), 3);
    let managed = select_listed(&vms, &state, "utmd-", None);
    assert_eq!(managed.len(), 2);
    assert_eq!(managed[0].os.as_deref(), Some("linux"));
    assert_eq!(managed[0].created_at, Some(Timestamp { secs: 10, nanos: 0 }));
    let linux = select_listed(&vms, &state, "utmd-", Some(OsType::Linux));
    assert_eq!(linux.len(), 1);
    assert_eq!(linux[0].name, "utmd-linux-a");
    let o = list_outcome(linux);
    assert_eq!(o.response.command, "ls");
    assert!(o.response.ok);
    assert_eq!(o.code, ExitCode::Success);
    assert_eq!(o.lines.iter().map(line_text).collect::<Vec<_>>(), vec!["out:utmd-linux-a"]);
}

#[test]
fn inspect_found_and_missing() {
    let vms = vec![vm("a"), vm("b")];
    let state = state_with(&[("b", "macos", 5)]);
    let found = find_vm(&vms, &state, "b").expect("listed");
    assert_eq!(found.os.as_deref(), Some("macos"));
    let o = status_outcome(Some(found), "b");
    assert_eq!(o.response.command, "inspect");
    assert_eq!(o.code, ExitCode::Success);
    let missing = find_vm(&vms, &state, "missing-vm");
    assert!(missing.is_none());
    let o = status_outcome(missing, "missing-vm");
    assert_eq!(o.code.as_i32(), 66);
    assert!(!o.response.ok);
    assert_eq!(o.response.command, "inspect");
    assert_eq!(o.response.error.as_deref(), Some("vm 'missing-vm' not found"));
}

#[test]
fn mutations() {
    let o = mutation_dry_run("start", "start", "vm1");
    assert_eq!(o.response.data.as_ref().map(|d| d.message.clone()), Some("dry-run: would start 'vm1'".to_string()));
    assert_eq!(o.code, ExitCode::Success);
    let o = mutation_finished("delete", "delete", "vm1", Ok(()));
    assert_eq!(o.response.data.as_ref().map(|d| d.message.clone()), Some("delete succeeded for 'vm1'".to_string()));
    assert_eq!(o.response.command, "delete");
    let o = mutation_finished("stop", "stop", "vm1", Err("failed to stop vm 'vm1': x".to_string()));
    assert_eq!(o.code, ExitCode::ExternalCommandFailed);
    assert_eq!(o.response.error.as_deref(), Some("failed to stop vm 'vm1': x"));
    assert_eq!(o.lines.iter().map(line_text).collect::<Vec<_>>(), vec!["error:failed to stop vm 'vm1': x"]);
    let o = open_finished("vm1", Ok(()));
    assert_eq!(o.response.command, "open");
    assert_eq!(o.response.data.as_ref().map(|d| d.action.clone()), Some("open".to_string()));
    assert!(delete_needs_confirmation(false, false, false));
    assert!(!delete_needs_confirmation(true, false, false));
    assert!(!delete_needs_confirmation(false, true, false));
    assert!(!delete_needs_confirmation(false, false, true));
    assert_eq!(delete_prompt("x"), "delete vm 'x' now?");
    assert!(forget_after_delete(ExitCode::Success, false));
    assert!(!forget_after_delete(ExitCode::Success, true));
    assert!(!forget_after_delete(ExitCode::ExternalCommandFailed, false));
}

#[test]
fn older_than_values() {
    assert_eq!(parse_older_than("24h").ok(), Some(86400));
    assert_eq!(parse_older_than("7d").ok(), Some(604800));
    assert!(matches!(parse_older_than("0h"), Err(OlderThanError::NotPositive)));
    assert!(matches!(parse_older_than("-3d"), Err(OlderThanError::NotPositive)));
    let e = parse_older_than("abc").err().expect("not a number");
    assert_eq!(e.message(), "invalid digit found in string");
    let e = parse_older_than("5m").err().expect("bad unit");
    assert_eq!(e.message(), "invalid older-than unit 'm': use h or d");
    let e = parse_older_than("9999999999999999h").err().expect("too large");
    assert!(matches!(e, OlderThanError::OutOfRange(ref s) if s == "9999999999999999h"));
    assert_eq!(e.message(), "invalid older-than '9999999999999999h': out of range");
    assert!(matches!(parse_older_than("106751991167300d"), Err(OlderThanError::OutOfRange(_))));
    assert_eq!(parse_older_than("106751991167d").ok(), Some(106751991167 * 86400));
    let e = parse_older_than("1\u{e9}").err().expect("non-ASCII unit");
    assert!(matches!(e, OlderThanError::BadUnit('\u{e9}')));
    let e = parse_older_than("h").err().expect("too short");
    assert_eq!(e.message(), "invalid older-than 'h': expected values like 24h or 7d");
    assert!(matches!(split_older_than("12d"), Ok((12, AgeUnit::Days))));
    assert_eq!(age_seconds(2, AgeUnit::Hours), Some(7200));
    assert_eq!(age_seconds(i64::MAX, AgeUnit::Days), None);
    assert_eq!(age_seconds(9_223_372_036_854_775 / 3600, AgeUnit::Hours), Some((9_223_372_036_854_775 / 3600) * 3600));
    let o = older_than_outcome(&OlderThanError::NotPositive);
    assert_eq!(o.code.as_i32(), 64);
    assert_eq!(o.response.command, "prune");
    assert!(!o.response.ok);
}

#[test]
fn prune_selection_and_summary() {
    let vms = vec![vm("utmd-linux-old"), vm("utmd-linux-new"), vm("utmd-macos-old"), vm("keep"), vm("utmd-unknown")];
    let state = state_with(&[
        ("utmd-linux-old", "linux", 100),
        ("utmd-linux-new", "linux", 1000),
        ("utmd-macos-old", "macos", 100),
        ("keep", "linux", 1),
    ]);
    let cutoff = prune_cutoff(Timestamp { secs: 1100, nanos: 5 }, 500);
    assert_eq!(cutoff, Some(Timestamp { secs: 600, nanos: 5 }));
    let all = select_prune_candidates(&vms, &state, "utmd-", None, None);
    assert_eq!(all.len(), 4);
    let chosen = select_prune_candidates(&vms, &state, "utmd-", Some(OsType::Linux), cutoff);
    assert_eq!(chosen.len(), 1);
    assert_eq!(chosen[0].name, "utmd-linux-old");

    let preview = prune_summary(&all, true, &Vec::new());
    assert_eq!((preview.matched, preview.skipped, preview.deleted, preview.failed), (4, 4, 0, 0));
    assert_eq!(preview.results[0].message, "dry-run: would remove 'utmd-linux-old'");

    let outcomes = vec![Ok(()), Err("boom".to_string()), Ok(()), Ok(())];
    let summary = prune_summary(&all, false, &outcomes);
    assert_eq!((summary.matched, summary.skipped, summary.deleted, summary.failed), (4, 0, 3, 1));
    assert_eq!(summary.results[1].message, "failed to remove 'utmd-linux-new': boom");
    assert!(!summary.results[1].ok);
    assert_eq!(summary.results[0].message, "removed successfully");

    let mut st = state;
    forget_removed_vms(&mut st, &all, &outcomes);
    assert!(st.get("utmd-linux-old").is_none());
    assert!(st.get("utmd-linux-new").is_some());
    assert!(st.get("keep").is_some());

    let o = prune_outcome(summary);
    assert_eq!(o.code, ExitCode::PartialFailure);
    assert!(!o.response.ok);
    assert_eq!(o.response.error.as_deref(), Some("partial failure"));
    assert_eq!(o.lines.iter().map(line_text).collect::<Vec<_>>(), vec!["info:summary: matched 4, deleted 3, failed 1, skipped 0"]);
    let o = prune_outcome(preview);
    assert_eq!(o.code, ExitCode::Success);
    assert!(o.response.ok && o.response.error.is_none());
    assert_eq!(prune_prompt(2, "utmd-"), "remove 2 vm(s) matching prefix 'utmd-' now?");
}

fn clone_args(name: Option<&str>, prefix: Option<&str>, template: Option<&str>) -> CloneArgs {
    CloneArgs {
        os_type: OsType::Linux,
        name: name.map(|s| s.to_string()),
        name_exact: false,
        name_template: None,
        prefix: prefix.map(|s| s.to_string()),
        template: template.map(|s| s.to_string()),
    }
}

#[test]
fn create_decisions() {
    let cfg = EffectiveConfig::defaults("/c".to_string(), "/s".to_string());
    assert_eq!(choose_template(&clone_args(None, None, None), &cfg), "[t]-linux");
    assert_eq!(choose_template(&clone_args(None, None, Some("base")), &cfg), "base");
    let existing = vm_names(&vec![vm("x-dev")]);
    assert_eq!(existing, vec!["x-dev"]);
    let n = choose_vm_name(&clone_args(Some("dev"), Some("y-"), None), &cfg, &existing);
    assert_eq!(n.ok(), Some("y-dev".to_string()));
    let e = choose_vm_name(&clone_args(Some("dev"), Some("x-"), None), &cfg, &existing).err().expect("taken");
    let o = name_conflict("create", &e);
    assert_eq!(o.code.as_i32(), 65);
    let generated = choose_vm_name(&clone_args(None, None, None), &cfg, &existing).ok().expect("fresh");
    assert!(generated.starts_with("utmd-linux-"));
    let o = create_dry_run("utmd-linux-ab12", "[t]-linux");
    assert_eq!(o.response.data.as_ref().map(|d| d.message.clone()), Some("dry-run: would clone 'utmd-linux-ab12' from '[t]-linux'".to_string()));
    let o = create_done("n");
    assert_eq!(o.response.command, "create");
    let m = new_vm_metadata("n", OsType::Macos, "[t]-macos", Timestamp { secs: 3, nanos: 4 });
    assert_eq!(m.os.as_deref(), Some("macos"));
    assert_eq!(m.template.as_deref(), Some("[t]-macos"));
}

#[test]
fn run_decisions() {
    assert_eq!(clone_step(0, true, false), CloneStep::Proceed);
    assert_eq!(clone_step(0, false, true), CloneStep::Retry);
    assert_eq!(clone_step(1, false, true), CloneStep::Retry);
    assert_eq!(clone_step(2, false, true), CloneStep::Proceed);
    assert_eq!(clone_step(1, false, false), CloneStep::Fail);
    let o = run_dry_run("utmd-linux-ab12", "[t]-linux");
    assert_eq!(o.response.command, "run");
    assert_eq!(o.response.data.as_ref().map(|d| d.action.clone()), Some("run".to_string()));
    assert!(o.response.data.as_ref().and_then(|d| d.target.clone()).is_some_and(|t| t.starts_with("utmd-linux-")));
    assert_eq!(orphan_warning("v"), "warning: cleaning up orphaned vm 'v'");
    assert_eq!(run_done("v").code, ExitCode::Success);
}

#[test]
fn init_decisions() {
    let o = init_dry_run("/c.toml", true);
    assert_eq!(o.response.data.as_ref().map(|d| d.message.clone()), Some("dry-run: would overwrite config at '/c.toml'".to_string()));
    let o = init_dry_run("/c.toml", false);
    assert_eq!(o.response.data.as_ref().map(|d| d.action.clone()), Some("init".to_string()));
    assert!(init_blocked(true, false));
    assert!(!init_blocked(true, true));
    assert!(!init_blocked(false, false));
    let o = init_conflict("/c.toml");
    assert_eq!(o.code.as_i32(), 65);
    assert!(!o.response.ok);
    let o = init_written("/c.toml");
    assert_eq!(o.lines.len(), 2);
    assert_eq!(o.response.data.as_ref().map(|d| d.message.clone()), Some("wrote config to '/c.toml'".to_string()));
}

#[test]
fn prune_cutoff_range_edges() {
    let max = Timestamp { secs: 8_210_266_876_799, nanos: 7 };
    let min = Timestamp { secs: -8_334_601_228_800, nanos: 0 };
    assert_eq!(prune_cutoff(max, 1), Some(Timestamp { secs: 8_210_266_876_798, nanos: 7 }));
    assert_eq!(prune_cutoff(max, -1), None);
    assert_eq!(prune_cutoff(min, -1), Some(Timestamp { secs: -8_334_601_228_799, nanos: 0 }));
    assert_eq!(prune_cutoff(min, 1), None);
    assert_eq!(prune_cutoff(Timestamp { secs: 8_210_266_876_800, nanos: 0 }, 10), None);
    assert_eq!(prune_cutoff(Timestamp { secs: -8_334_601_228_801, nanos: 0 }, -10), None);
    assert_eq!(prune_cutoff(Timestamp { secs: 0, nanos: 0 }, 9_223_372_036_854_776), None);
    assert_eq!(prune_cutoff(Timestamp { secs: 86_399, nanos: 1 }, 86_400), Some(Timestamp { secs: -1, nanos: 1 }));
}

fn action_text(a: &RunAction) -> String {
    match a {
        RunAction::Clone(n) => format!("clone {}", n),
        RunAction::List => "list".to_string(),
        RunAction::Record(n) => format!("record {}", n),
        RunAction::Start(n) => format!("start {}", n),
        RunAction::Open(n) => format!("open {}", n),
        RunAction::Warn(m) => format!("warn {}", m),
        RunAction::Stop(n) => format!("stop {}", n),
        RunAction::Delete(n) => format!("delete {}", n),
        RunAction::Forget(n) => format!("forget {}", n),
        RunAction::Finish(RunEnd::Completed(n)) => format!("completed {}", n),
        RunAction::Finish(RunEnd::Failed(m)) => format!("failed {}", m),
        RunAction::Finish(RunEnd::NoName) => "no name".to_string(),
    }
}

fn drive(events: Vec<RunEvent>) -> Vec<String> {
    let cfg = EffectiveConfig::defaults("/c".to_string(), "/s".to_string());
    let args = clone_args(None, None, None);
    let (mut st, first) = run_begin("utmd-linux-ab12".to_string());
    let mut seen = vec![action_text(&first)];
    for e in events {
        let (next, a) = run_step(&args, &cfg, st, e);
        st = next;
        seen.push(action_text(&a));
    }
    seen
}

fn ok() -> RunEvent {
    RunEvent::Done(None)
}

fn failed(m: &str) -> RunEvent {
    RunEvent::Done(Some(m.to_string()))
}

#[test]
fn run_steps_when_everything_works() {
    assert_eq!(
        drive(vec![ok(), ok(), ok(), ok()]),
        vec!["clone utmd-linux-ab12", "record utmd-linux-ab12", "start utmd-linux-ab12", "open utmd-linux-ab12", "completed utmd-linux-ab12"]
    );
}

#[test]
fn run_cleans_up_after_failed_start_and_open() {
    assert_eq!(
        drive(vec![ok(), ok(), failed("no boot"), failed("x"), ok(), ok()]),
        vec![
            "clone utmd-linux-ab12", "record utmd-linux-ab12", "start utmd-linux-ab12",
            "warn warning: cleaning up orphaned vm 'utmd-linux-ab12'", "delete utmd-linux-ab12",
            "forget utmd-linux-ab12", "failed no boot",
        ]
    );
    assert_eq!(
        drive(vec![ok(), ok(), ok(), failed("no window"), ok(), ok(), ok(), ok()]),
        vec![
            "clone utmd-linux-ab12", "record utmd-linux-ab12", "start utmd-linux-ab12", "open utmd-linux-ab12",
            "warn warning: cleaning up orphaned vm 'utmd-linux-ab12'", "stop utmd-linux-ab12",
            "delete utmd-linux-ab12", "forget utmd-linux-ab12", "failed no window",
        ]
    );
}

#[test]
fn run_clone_failures() {
    // Not left behind: the clone's error ends the command; a failed listing counts as empty.
    assert_eq!(drive(vec![failed("busy"), RunEvent::Listed(vec!["other".to_string()])]), vec!["clone utmd-linux-ab12", "list", "failed busy"]);
    assert_eq!(drive(vec![failed("busy"), failed("list failed")]), vec!["clone utmd-linux-ab12", "list", "failed busy"]);
    // Left behind: a fresh name is drawn from a new listing and cloned.
    let seen = drive(vec![failed("busy"), RunEvent::Listed(vec!["utmd-linux-ab12".to_string()]), RunEvent::Listed(vec!["utmd-linux-ab12".to_string()])]);
    assert_eq!(seen[..3], ["clone utmd-linux-ab12", "list", "list"]);
    assert!(seen[3].starts_with("clone utmd-linux-"));
    assert_ne!(seen[3], "clone utmd-linux-ab12");
    // On the last attempt a clone left behind goes on to be recorded.
    let cfg = EffectiveConfig::defaults("/c".to_string(), "/s".to_string());
    let args = clone_args(None, None, None);
    let st = RunState::Checking { attempt: 2, name: "v".to_string(), error: "e".to_string() };
    let (_, a) = run_step(&args, &cfg, st, RunEvent::Listed(vec!["v".to_string()]));
    assert_eq!(action_text(&a), "record v");
    // No retries configured: no fresh name, the command ends with only the exit code.
    let mut cfg = EffectiveConfig::defaults("/c".to_string(), "/s".to_string());
    cfg.naming_max_retries = 0;
    let (st, a) = run_step(&args, &cfg, RunState::Renaming { attempt: 1 }, RunEvent::Listed(Vec::new()));
    assert_eq!(action_text(&a), "no name");
    assert!(matches!(st, RunState::Finished { end: RunEnd::NoName }));
}

#[test]
fn run_finish_outcomes() {
    assert!(matches!(run_finish(RunEnd::NoName), Err(ExitCode::Conflict)));
    let o = run_finish(RunEnd::Failed("boom".to_string())).ok().expect("an outcome");
    assert_eq!(o.code, ExitCode::ExternalCommandFailed);
    assert_eq!(o.response.error.as_deref(), Some("boom"));
    let o = run_finish(RunEnd::Completed("v".to_string())).ok().expect("an outcome");
    assert_eq!(o.code, ExitCode::Success);
    assert_eq!(o.response.data.as_ref().map(|d| d.message.clone()), Some("run completed successfully".to_string()));
}
