use pim_tomato::text::{clean_sound_name, fmt_tray, link_targets, same_text, sound_path, strip_prefix_text};

#[test]
fn fmt_tray_minutes_and_seconds() {
    assert_eq!(fmt_tray(99), "1:39");
    assert_eq!(fmt_tray(0), "0:00");
    assert_eq!(fmt_tray(5), "0:05");
    assert_eq!(fmt_tray(59), "0:59");
    assert_eq!(fmt_tray(60), "1:00");
    assert_eq!(fmt_tray(3599), "59:59");
}

#[test]
fn fmt_tray_hours() {
    assert_eq!(fmt_tray(3600), "1:00:00");
    assert_eq!(fmt_tray(3725), "1:02:05");
    assert_eq!(fmt_tray(36000 + 11 * 60 + 12), "10:11:12");
    assert_eq!(fmt_tray(i64::MAX), format!("{}:{:02}:{:02}", i64::MAX / 3600, (i64::MAX % 3600) / 60, i64::MAX % 60));
}

#[test]
fn fmt_tray_negative_is_zero() {
    assert_eq!(fmt_tray(-1), "0:00");
    assert_eq!(fmt_tray(-7200), "0:00");
    assert_eq!(fmt_tray(i64::MIN), "0:00");
}

#[test]
fn fmt_tray_matches_std_format() {
    for sec in [0i64, 1, 9, 10, 61, 599, 600, 3599, 3600, 3601, 86399, 86400, 123456] {
        let h = sec / 3600;
        let m = (sec % 3600) / 60;
        let x = sec % 60;
        let expected = if h > 0 { format!("{}:{:02}:{:02}", h, m, x) } else { format!("{}:{:02}", m, x) };
        assert_eq!(fmt_tray(sec), expected);
    }
}

#[test]
fn sound_name_keeps_letters_and_digits() {
    assert_eq!(clean_sound_name("Glass"), "Glass");
    assert_eq!(clean_sound_name("../../etc/passwd"), "etcpasswd");
    assert_eq!(clean_sound_name("Sub marine 2!"), "Submarine2");
    assert_eq!(clean_sound_name("ñPing€"), "Ping");
    assert_eq!(clean_sound_name(""), "");
}

#[test]
fn sound_path_default_and_named() {
    assert_eq!(sound_path(""), "/System/Library/Sounds/Glass.aiff");
    assert_eq!(sound_path("Ping"), "/System/Library/Sounds/Ping.aiff");
}

#[test]
fn same_text_compares_characters() {
    assert!(same_text("resize", "resize"));
    assert!(!same_text("resize", "resiz"));
    assert!(!same_text("pin", "pun"));
    assert!(same_text("", ""));
}

#[test]
fn strip_prefix_text_cases() {
    assert_eq!(strip_prefix_text("https://app.clickup.com/t/42", "https://app.clickup.com/"), Some("t/42"));
    assert_eq!(strip_prefix_text("https://example.com", "https://app.clickup.com/"), None);
    assert_eq!(strip_prefix_text("ab", "abc"), None);
    assert_eq!(strip_prefix_text("àbc", "à"), Some("bc"));
}

#[test]
fn open_clickup_link_tries_app_then_browser() {
    assert_eq!(
        link_targets(Some("https://app.clickup.com/t/86abc")),
        vec!["clickup://t/86abc".to_string(), "https://app.clickup.com/t/86abc".to_string()]
    );
}

#[test]
fn open_other_link_in_browser() {
    assert_eq!(link_targets(Some("https://example.com/x")), vec!["https://example.com/x".to_string()]);
    assert_eq!(link_targets(Some("http://app.clickup.com/t/1")), vec!["http://app.clickup.com/t/1".to_string()]);
}

#[test]
fn open_missing_or_empty_link_does_nothing() {
    assert!(link_targets(None).is_empty());
    assert!(link_targets(Some("")).is_empty());
}
