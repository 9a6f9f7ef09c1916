use utmd::utm::{
    UtmctlError, UtmctlOp, validated_utmctl_path, choose_utmctl_candidate, error_line,
    escape_applescript_string, explicit_utmctl, fallback_paths_for, first_existing_path, is_header_line,
    wait_step, WaitAction, WAIT_POLL_MS,
    is_utmctl_path, list_vms_from_output, open_failure_message, open_vm_script, parse_columns,
    parse_list_output, parse_state, stderr_msg,
};

#[test]
fn two_column_line_is_state_then_name() {
    let parsed = parse_list_line_owned("Paused devbox");
    assert_eq!(parsed, Some((Some("paused".to_string()), "devbox".to_string())));
    let parsed = parse_list_line_owned("Paused dev box");
    assert_eq!(parsed, Some((None, "box".to_string())));
}

fn parse_list_line_owned(line: &str) -> Option<(Option<String>, String)> {
    utmd::utm::parse_list_line(line)
}

#[test]
fn unknown_state_gives_no_state() {
    let parsed = parse_list_line_owned("ABCD suspended vm1");
    assert_eq!(parsed, Some((None, "vm1".to_string())));
}

#[test]
fn blank_line_is_ignored() {
    assert_eq!(parse_list_line_owned("   \t "), None);
    assert_eq!(parse_list_line_owned(""), None);
}

#[test]
fn columns_of_a_line() {
    assert_eq!(parse_columns("  a  b   c d  "), vec!["a", "b", "c d"]);
    assert_eq!(parse_columns("a b"), vec!["a", "b"]);
    assert_eq!(parse_columns("a"), vec!["a"]);
    assert!(parse_columns("   ").is_empty());
}

#[test]
fn states_are_case_folded() {
    assert_eq!(parse_state("RUNNING"), Some("running".to_string()));
    assert_eq!(parse_state("Stopped"), Some("stopped".to_string()));
    assert_eq!(parse_state("starting"), None);
}

#[test]
fn header_is_the_column_titles() {
    assert!(is_header_line("uuid Status Name"));
    assert!(is_header_line("UUID                                 Status   Name"));
    assert!(is_header_line("Status Name"));
    assert!(!is_header_line("uuid status"));
    assert!(!is_header_line("my name"));
    assert!(!is_header_line("A1B2-C3D4 running name-status-vm"));
    assert!(!is_header_line("A1B2-C3D4 Status Name"));
}

#[test]
fn vm_named_like_the_header_is_listed() {
    assert_eq!(
        parse_list_line_owned("A1B2-C3D4 running name-status-vm"),
        Some((Some("running".to_string()), "name-status-vm".to_string()))
    );
    assert_eq!(parse_list_line_owned("UUID STATUS NAME"), None);
}

#[test]
fn list_output_skips_header_and_noise() {
    let out = "UUID                                 Status   Name\r\nA-1 running utmd-linux-ab12\nB-2 stopped  other vm\n\nunauthorized\n";
    let vms = parse_list_output(out);
    assert_eq!(vms.len(), 2);
    assert_eq!(vms[0].name, "utmd-linux-ab12");
    assert_eq!(vms[0].state.as_deref(), Some("running"));
    assert_eq!(vms[1].name, "other vm");
    assert_eq!(vms[1].state.as_deref(), Some("stopped"));
    assert!(vms[0].os.is_none() && vms[0].created_at.is_none());
}

#[test]
fn list_output_from_bytes() {
    let vms = list_vms_from_output(b"X paused vm-a\n");
    assert_eq!(vms.len(), 1);
    assert_eq!(vms[0].name, "vm-a");
}

#[test]
fn utmctl_path_normalizes_components() {
    assert!(is_utmctl_path("/Applications//UTM.app/./Contents/MacOS/utmctl/"));
    assert!(is_utmctl_path("UTM.app/Contents/MacOS/utmctl"));
    assert!(!is_utmctl_path("/Applications/UTM.app/Contents/../MacOS/utmctl"));
    assert!(!is_utmctl_path("Contents/MacOS/utmctl"));
    assert!(!is_utmctl_path("/usr/local/bin/utmctl"));
}

#[test]
fn stderr_first_line_or_unknown() {
    assert_eq!(error_line("  \n boom\nsecond\n"), "boom");
    assert_eq!(error_line("   "), "unknown error");
    assert_eq!(stderr_msg(b"bad thing\r\nmore"), "bad thing");
    assert_eq!(stderr_msg(b""), "unknown error");
}

#[test]
fn escape_backslashes_and_quotes() {
    assert_eq!(escape_applescript_string("a\\b\"c"), "a\\\\b\\\"c");
    assert_eq!(escape_applescript_string("plain"), "plain");
}

#[test]
fn open_script_embeds_escaped_name() {
    let script = open_vm_script("my \"vm\"");
    assert_eq!(
        script,
        "tell application \"UTM\"\nactivate\nset vmref to virtual machine named \"my \\\"vm\\\"\"\nset vm_status to status of vmref\nif vm_status is stopped or vm_status is paused then\nstart vmref\nend if\nend tell"
    );
}

#[test]
fn operations_have_arguments_labels_and_limits() {
    let op = UtmctlOp::Clone { template: "[t]-linux".to_string(), name: "utmd-linux-x".to_string() };
    assert_eq!(op.args(), vec!["clone", "[t]-linux", "--name", "utmd-linux-x"]);
    assert_eq!(op.label(), "utmctl clone");
    assert_eq!(op.timeout_secs(), 120);
    assert_eq!(op.notice(), Some("info: running utmctl clone..."));
    let list = UtmctlOp::List;
    assert_eq!(list.args(), vec!["list"]);
    assert_eq!(list.timeout_secs(), 10);
    assert_eq!(list.notice(), None);
    let stop = UtmctlOp::Stop { name: "vm".to_string() };
    assert_eq!(stop.timeout_secs(), 30);
    assert_eq!(stop.failure_message(b"oops\n"), "failed to stop vm 'vm': oops");
    assert_eq!(list.failure_message(b""), "failed to run utmctl list: unknown error");
}

#[test]
fn open_failure_is_reported_with_name() {
    assert_eq!(open_failure_message("vm", b"nope"), "failed to open vm 'vm' in UTM: nope");
}

#[test]
fn explicit_path_is_trimmed_or_absent() {
    assert_eq!(explicit_utmctl("  /x/utmctl "), Some("/x/utmctl".to_string()));
    assert_eq!(explicit_utmctl("   "), None);
}

#[test]
fn candidate_order() {
    assert_eq!(
        choose_utmctl_candidate(&Some("/a".to_string()), Some("/b".to_string()), Some("/c".to_string())),
        Some("/a".to_string())
    );
    assert_eq!(
        choose_utmctl_candidate(&Some(" ".to_string()), Some("/b".to_string()), Some("/c".to_string())),
        Some("/b".to_string())
    );
    assert_eq!(choose_utmctl_candidate(&None, Some("/b".to_string()), None), Some("/b".to_string()));
    assert_eq!(choose_utmctl_candidate(&None, None, Some("/c".to_string())), Some("/c".to_string()));
    assert_eq!(choose_utmctl_candidate(&Some(String::new()), None, None), None);
}

#[test]
fn resolved_path_checks() {
    let ok = validated_utmctl_path("/x", Some("/Applications/UTM.app/Contents/MacOS/utmctl".to_string()));
    assert_eq!(ok.ok(), Some("/Applications/UTM.app/Contents/MacOS/utmctl".to_string()));
    match validated_utmctl_path("/x", None) {
        Err(e) => assert_eq!(e.message(), "failed to resolve utmctl path '/x'"),
        Ok(_) => panic!("expected an error"),
    }
    match validated_utmctl_path("/x", Some("/usr/bin/true".to_string())) {
        Err(e) => assert_eq!(
            e.message(),
            "resolved utmctl path '/usr/bin/true' does not end with UTM.app/Contents/MacOS/utmctl"
        ),
        Ok(_) => panic!("expected an error"),
    }
    assert!(UtmctlError::NotFound.message().starts_with("utmctl not found:"));
}

#[test]
fn fallback_paths_include_home() {
    assert_eq!(
        fallback_paths_for(Some("/Users/me".to_string())),
        vec![
            "/Applications/UTM.app/Contents/MacOS/utmctl",
            "/opt/homebrew/bin/utmctl",
            "/usr/local/bin/utmctl",
            "/Users/me/Applications/UTM.app/Contents/MacOS/utmctl",
        ]
    );
    assert_eq!(fallback_paths_for(None).len(), 3);
    assert_eq!(fallback_paths_for(Some("/root/".to_string()))[3], "/root/Applications/UTM.app/Contents/MacOS/utmctl");
}

#[test]
fn escaping_distributes_and_guards_quotes() {
    let a = "say \"hi\"\\";
    let b = "\\\"x";
    assert_eq!(
        escape_applescript_string(&format!("{}{}", a, b)),
        format!("{}{}", escape_applescript_string(a), escape_applescript_string(b))
    );
    let t: Vec<char> = escape_applescript_string("a\\\"b\"\\\\\"").chars().collect();
    for (i, c) in t.iter().enumerate() {
        if *c == '"' {
            let run = t[..i].iter().rev().take_while(|d| **d == '\\').count();
            assert_eq!(run % 2, 1);
        }
    }
}

#[test]
fn first_existing_fallback() {
    let paths: Vec<String> = vec!["/a".to_string(), "/b".to_string(), "/c".to_string()];
    assert_eq!(first_existing_path(&paths, &vec![false, true, true]), Some("/b".to_string()));
    assert_eq!(first_existing_path(&paths, &vec![false, false, false]), None);
    assert_eq!(first_existing_path(&paths, &vec![true]), Some("/a".to_string()));
    assert_eq!(first_existing_path(&paths, &vec![false]), None);
}

#[test]
fn waiting_steps() {
    assert_eq!(wait_step(true, 999_999, 1), WaitAction::Collect);
    assert_eq!(wait_step(false, 999, 1), WaitAction::Sleep);
    assert_eq!(wait_step(false, 1000, 1), WaitAction::Kill);
    assert_eq!(wait_step(false, 0, 0), WaitAction::Kill);
    assert_eq!(wait_step(false, u64::MAX, u64::MAX), WaitAction::Sleep);
    assert_eq!(WAIT_POLL_MS, 100);
}
