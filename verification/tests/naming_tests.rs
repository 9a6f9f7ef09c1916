use chrono::TimeZone;
use utmd::cli::OsType;
use utmd::naming::{
    LocalClock, NameError, format_date, format_time, generate_name, pick_free, render_template,
    render_template_with, resolve_custom_name,
};

fn names(v: &[&str]) -> Vec<String> {
    v.iter().map(|s| s.to_string()).collect()
}

#[test]
fn custom_name_gets_prefix() {
    let r = resolve_custom_name("utmd-", "sandbox1", false, &names(&[]));
    assert_eq!(r.ok(), Some("utmd-sandbox1".to_string()));
    let r = resolve_custom_name("utmd-", "utmd-x", false, &names(&[]));
    assert_eq!(r.ok(), Some("utmd-x".to_string()));
    let r = resolve_custom_name("utmd-", "exact-name", true, &names(&[]));
    assert_eq!(r.ok(), Some("exact-name".to_string()));
}

#[test]
fn taken_custom_name_is_a_conflict() {
    let r = resolve_custom_name("utmd-", "a", false, &names(&["utmd-a"]));
    match r {
        Err(e) => assert_eq!(e.message(), "vm name 'utmd-a' already exists"),
        Ok(_) => panic!("expected a conflict"),
    }
}

#[test]
fn rendering_replaces_every_placeholder() {
    let n = render_template_with("{prefix}{os}-{date}-{time}-{rand}-{os}", "p-", OsType::Macos, "20240102", "030405", "ab12");
    assert_eq!(n, "p-macos-20240102-030405-ab12-macos");
}

#[test]
fn default_template_names() {
    for _ in 0..5 {
        let n = render_template("{prefix}{os}-{rand}", "utmd-", OsType::Linux, 4);
        assert!(n.starts_with("utmd-linux-"));
        assert_eq!(n.len(), "utmd-linux-".len() + 4);
        assert!(n["utmd-linux-".len()..].chars().all(|c| c.is_ascii_lowercase() || c.is_ascii_digit()));
    }
}

#[test]
fn generated_name_avoids_existing_and_errors_when_exhausted() {
    let r = generate_name("utmd-", "{prefix}{os}-{rand}", 4, 8, OsType::Linux, None, false, None, &names(&["utmd-linux-zzzz"]));
    let n = r.ok().expect("a fresh name");
    assert!(n.starts_with("utmd-linux-"));
    let r = generate_name("utmd-", "fixed", 4, 3, OsType::Linux, None, false, None, &names(&["fixed"]));
    match r {
        Err(e) => {
            assert!(matches!(e, NameError::Exhausted(3)));
            assert_eq!(e.message(), "failed to generate unique vm name after 3 retries");
        }
        Ok(_) => panic!("every candidate is taken"),
    }
    let r = generate_name("utmd-", "x", 4, 0, OsType::Linux, None, false, None, &names(&[]));
    assert!(r.is_err());
    let r = generate_name("utmd-", "x", 4, 1, OsType::Linux, None, false, Some("{prefix}fixed"), &names(&[]));
    assert_eq!(r.ok(), Some("utmd-fixed".to_string()));
    let r = generate_name("utmd-", "x", 4, 1, OsType::Linux, Some("mine"), false, None, &names(&[]));
    assert_eq!(r.ok(), Some("utmd-mine".to_string()));
}

fn clock(year: i32) -> LocalClock {
    LocalClock { year, month: 3, day: 9, hour: 7, minute: 5, second: 59, nanosecond: 0 }
}

#[test]
fn date_and_time_like_chrono() {
    assert_eq!(format_date(&clock(2024)), "20240309");
    assert_eq!(format_date(&clock(987)), "09870309");
    assert_eq!(format_date(&clock(-5)), "-00050309");
    assert_eq!(format_date(&clock(12345)), "+123450309");
    assert_eq!(format_time(&clock(2024)), "070559");
    let mut leap = clock(2024);
    leap.nanosecond = 1_500_000_000;
    assert_eq!(format_time(&leap), "070560");
    let dt = chrono::Utc.with_ymd_and_hms(987, 3, 9, 7, 5, 59).unwrap();
    assert_eq!(dt.format("%Y%m%d").to_string(), "09870309");
    let dt = chrono::Utc.with_ymd_and_hms(-5, 3, 9, 7, 5, 59).unwrap();
    assert_eq!(dt.format("%Y%m%d").to_string(), "-00050309");
}

#[test]
fn pick_free_takes_the_first_untaken() {
    let existing = names(&["a", "b"]);
    assert_eq!(pick_free(&names(&["a", "c", "d"]), &existing), Some("c".to_string()));
    assert_eq!(pick_free(&names(&["b", "a"]), &existing), None);
    assert_eq!(pick_free(&names(&[]), &existing), None);
    assert_eq!(pick_free(&names(&["z"]), &names(&[])), Some("z".to_string()));
}

#[test]
fn rendered_name_found_when_nothing_listed() {
    let r = generate_name("utmd-", "{prefix}{os}-{rand}", 4, 1, OsType::Macos, None, false, None, &names(&[]));
    let n = r.ok().expect("nothing is taken");
    assert!(n.starts_with("utmd-macos-"));
}
