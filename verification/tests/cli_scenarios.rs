use utmd::cli::{CloneArgs, OsType};
use utmd::commands::clone::choose_vm_name;
use utmd::commands::delete_all::{older_than_outcome, parse_older_than};
use utmd::commands::init::{init_blocked, init_conflict, init_dry_run};
use utmd::commands::lifecycle::{list_outcome, status_outcome};
use utmd::commands::spawn::run_dry_run;
use utmd::config::{CliFlags, EnvConfig, load_effective_from};

fn env_with_test_paths() -> EnvConfig {
    EnvConfig {
        utm_app: None,
        utmctl_path: Some("/usr/bin/true".to_string()),
        state_path: Some("/tmp/utmd-test-state.json".to_string()),
        prefix: None,
        template_linux: None,
        template_macos: None,
        json: None,
        quiet: None,
    }
}

fn json_dry_run() -> CliFlags {
    CliFlags { json: true, quiet: false, yes: false, dry_run: true }
}

#[test]
fn delete_all_invalid_older_than_returns_exit_64_and_json_error() {
    let err = parse_older_than("abc").err().expect("abc is refused");
    let outcome = older_than_outcome(&err);
    assert_eq!(outcome.code.as_i32(), 64);
    assert_eq!(outcome.response.command, "prune");
    assert_eq!(outcome.response.ok, false);
    assert!(outcome.response.error.is_some());
}

#[test]
fn status_not_found_returns_exit_66_and_json_error() {
    let outcome = status_outcome(None, "missing-vm");
    assert_eq!(outcome.code.as_i32(), 66);
    assert_eq!(outcome.response.command, "inspect");
    assert_eq!(outcome.response.ok, false);
}

#[test]
fn list_returns_wrapped_json_schema() {
    let outcome = list_outcome(Vec::new());
    assert_eq!(outcome.code.as_i32(), 0);
    assert_eq!(outcome.response.command, "ls");
    assert_eq!(outcome.response.ok, true);
    assert!(outcome.response.data.is_some());
}

#[test]
fn spawn_dry_run_returns_wrapped_json_schema() {
    let cfg = load_effective_from(&json_dry_run(), "/tmp/none.toml".to_string(), "/tmp/s.json".to_string(), None, env_with_test_paths())
        .ok()
        .expect("valid config");
    assert!(cfg.json && cfg.dry_run);
    let args = CloneArgs { os_type: OsType::Linux, name: None, name_exact: false, name_template: None, prefix: None, template: None };
    let name = choose_vm_name(&args, &cfg, &Vec::new()).ok().expect("a name");
    let outcome = run_dry_run(&name, cfg.template_for(OsType::Linux));
    assert_eq!(outcome.code.as_i32(), 0);
    assert_eq!(outcome.response.command, "run");
    assert_eq!(outcome.response.ok, true);
    let data = outcome.response.data.expect("data");
    assert_eq!(data.action, "run");
    assert!(data.target.as_deref().is_some_and(|name| name.starts_with("utmd-linux-")));
}

#[test]
fn init_dry_run_returns_wrapped_json_schema() {
    let outcome = init_dry_run("/tmp/utmd/config.toml", false);
    assert_eq!(outcome.code.as_i32(), 0);
    assert_eq!(outcome.response.command, "init");
    assert_eq!(outcome.response.ok, true);
    assert_eq!(outcome.response.data.expect("data").action, "init");
}

#[test]
fn init_existing_file_without_force_returns_exit_65() {
    let path = "/tmp/utmd-test-config.toml";
    assert!(init_blocked(true, false));
    let outcome = init_conflict(path);
    assert_eq!(outcome.code.as_i32(), 65);
    assert_eq!(outcome.response.command, "init");
    assert_eq!(outcome.response.ok, false);
    assert!(outcome.response.error.is_some());
}
