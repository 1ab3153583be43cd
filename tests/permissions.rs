use pastepaw_core::{is_accessibility_enabled, should_send_paste_input};

#[test]
fn test_is_accessibility_enabled() {
    let enabled = is_accessibility_enabled(None);
    println!("Accessibility enabled: {}", enabled);
    assert!(enabled);
    assert!(is_accessibility_enabled(Some(true)));
    assert!(!is_accessibility_enabled(Some(false)));
}

#[test]
fn paste_keystroke_needs_auto_paste_and_permission() {
    assert!(should_send_paste_input(true, None));
    assert!(should_send_paste_input(true, Some(true)));
    assert!(!should_send_paste_input(true, Some(false)));
    assert!(!should_send_paste_input(false, None));
}
