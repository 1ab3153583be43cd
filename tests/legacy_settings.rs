use pastepaw_core::{
    apply_legacy_setting, parse_bool, parse_i64, replace_ignored_apps, same_text, sort_names,
    text_less_or_equal, AppSettings,
};

#[test]
fn integers_parse_like_std() {
    for s in ["0", "42", "-42", "+7", "007", "9223372036854775807", "-9223372036854775808",
              "9223372036854775808", "-9223372036854775809", "", "-", "+", " 1", "1 ", "1a",
              "99999999999999999999999", "١٢"] {
        assert_eq!(parse_i64(s), s.parse::<i64>().ok(), "input {:?}", s);
    }
}

#[test]
fn flags_parse_like_std() {
    for s in ["true", "false", "True", "1", "", "true "] {
        assert_eq!(parse_bool(s), s.parse::<bool>().ok(), "input {:?}", s);
    }
}

#[test]
fn text_equality() {
    assert!(same_text("abc", "abc"));
    assert!(!same_text("abc", "abd"));
    assert!(!same_text("abc", "ab"));
    assert!(same_text("", ""));
}

#[test]
fn stored_pairs_overlay_the_defaults() {
    let mut s = AppSettings::default();
    apply_legacy_setting(&mut s, "theme", "dark".to_string());
    apply_legacy_setting(&mut s, "max_items", "250".to_string());
    apply_legacy_setting(&mut s, "auto_delete_days", "soon".to_string());
    apply_legacy_setting(&mut s, "auto_paste", "true".to_string());
    apply_legacy_setting(&mut s, "ignore_ghost_clips", "yes".to_string());
    apply_legacy_setting(&mut s, "ai_title_fix_grammar", "Fix".to_string());
    apply_legacy_setting(&mut s, "startup_with_windows", "true".to_string());
    apply_legacy_setting(&mut s, "unknown", "x".to_string());
    assert_eq!(s.theme, "dark");
    assert_eq!(s.max_items, 250);
    assert_eq!(s.auto_delete_days, 30);
    assert!(s.auto_paste);
    assert!(!s.ignore_ghost_clips);
    assert_eq!(s.ai_title_fix_grammar, "Fix");
    assert!(!s.startup_with_windows);
}

#[test]
fn stored_ignored_apps_are_deduplicated() {
    let mut s = AppSettings::default();
    replace_ignored_apps(&mut s, vec!["a.exe".to_string(), "b.exe".to_string(), "a.exe".to_string()]);
    assert_eq!(s.ignored_apps, vec!["a.exe".to_string(), "b.exe".to_string()]);
    replace_ignored_apps(&mut s, Vec::new());
    assert!(s.ignored_apps.is_empty());
}

#[test]
fn names_sort_by_code_point() {
    let names: Vec<String> = ["b", "a", "B", "ab", "", "é", "a"].iter().map(|s| s.to_string()).collect();
    let mut expected = names.clone();
    expected.sort();
    assert_eq!(sort_names(names), expected);
    assert!(text_less_or_equal("ab", "abc"));
    assert!(!text_less_or_equal("abc", "ab"));
    assert!(text_less_or_equal("Z", "a"));
    assert!(text_less_or_equal("x", "x"));
}
