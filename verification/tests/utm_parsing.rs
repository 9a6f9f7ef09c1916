use utmd::utm::{escape_applescript_string, is_utmctl_path, parse_list_line};

#[test]
fn accepts_embedded_app_path() {
    let path = "/Applications/UTM.app/Contents/MacOS/utmctl";
    assert!(is_utmctl_path(path));
}

#[test]
fn accepts_home_app_path() {
    let path = "/Users/tappunk/Applications/UTM.app/Contents/MacOS/utmctl";
    assert!(is_utmctl_path(path));
}

#[test]
fn rejects_path_not_inside_app_bundle() {
    let path = "/opt/homebrew/bin/utmctl-copy";
    assert!(!is_utmctl_path(path));
}

#[test]
fn rejects_similar_suffix_only() {
    let path = "/Applications/UTM.app/Contents/MacOS/utmctl/extra";
    assert!(!is_utmctl_path(path));
}

#[test]
fn parse_with_multi_word_name() {
    let line = "A1B2-C3D4 running Ubuntu Sandbox Development";
    let parsed = parse_list_line(line).expect("line should parse");
    assert_eq!(parsed.0.as_deref(), Some("running"));
    assert_eq!(parsed.1, "Ubuntu Sandbox Development");
}

#[test]
fn parse_with_extra_whitespace() {
    let line = "A1B2-C3D4    stopped    my vm";
    let parsed = parse_list_line(line).expect("line should parse");
    assert_eq!(parsed.0.as_deref(), Some("stopped"));
    assert_eq!(parsed.1, "my vm");
}

#[test]
fn ignore_header_line() {
    let line = "UUID STATUS NAME";
    assert!(parse_list_line(line).is_none());
}

#[test]
fn ignore_single_column_line() {
    let line = "unauthorized";
    assert!(parse_list_line(line).is_none());
}

#[test]
fn escape_quotes_for_applescript() {
    let escaped = escape_applescript_string("foo\"bar");
    assert_eq!(escaped, "foo\\\"bar");
}
