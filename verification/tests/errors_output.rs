use utmd::cli::OsType;
use utmd::errors::{ExitCode, TimedOut};
use utmd::models::CommandResponse;
use utmd::output::Reporter;

#[test]
fn exit_codes() {
    assert_eq!(ExitCode::Success.as_i32(), 0);
    assert_eq!(ExitCode::InvalidUsage.as_i32(), 64);
    assert_eq!(ExitCode::DependencyMissing.as_i32(), 124);
    assert_eq!(ExitCode::NotFound.as_i32(), 66);
    assert_eq!(ExitCode::Conflict.as_i32(), 65);
    assert_eq!(ExitCode::PartialFailure.as_i32(), 1);
    assert_eq!(ExitCode::ExternalCommandFailed.as_i32(), 1);
    assert_eq!(ExitCode::CommandTimedOut.as_i32(), 1);
}

#[test]
fn timeout_message() {
    let t = TimedOut { label: "utmctl list", timeout_secs: 10 };
    assert_eq!(t.message(), "utmctl list timed out after 10s — UTM may be unresponsive");
}

#[test]
fn os_names() {
    assert_eq!(OsType::Linux.as_str(), "linux");
    assert_eq!(OsType::Macos.as_str(), "macos");
}

#[test]
fn reporter_modes() {
    let text = Reporter::new(false, false);
    assert!(!text.is_json());
    assert_eq!(text.info_line("hi"), Some("info: hi".to_string()));
    assert_eq!(text.error_line("bad"), Some("error: bad".to_string()));
    assert_eq!(text.stdout_line("vm"), Some("vm".to_string()));
    let quiet = Reporter::new(false, true);
    assert_eq!(quiet.info_line("hi"), None);
    assert_eq!(quiet.error_line("bad"), Some("error: bad".to_string()));
    let json = Reporter::new(true, false);
    assert!(json.is_json());
    assert_eq!(json.info_line("hi"), None);
    assert_eq!(json.error_line("bad"), None);
    assert_eq!(json.stdout_line("vm"), None);
}

#[test]
fn response_shapes() {
    let ok = CommandResponse::success("ls", 3u32);
    assert!(ok.ok && ok.data == Some(3) && ok.error.is_none() && ok.warnings.is_empty());
    assert_eq!(ok.command, "ls");
    let bad: CommandResponse<u32> = CommandResponse::failure("prune", "x".to_string());
    assert!(!bad.ok && bad.data.is_none() && bad.error.as_deref() == Some("x"));
}
