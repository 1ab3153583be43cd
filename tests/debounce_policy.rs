use pastepaw_core::{
    get_clipboard_owner_app_info, get_frontmost_app_info, is_ignored, is_own_app, passes_policy,
    AppSettings, AppSnapshot, DebounceOutcome, Debouncer, FrontmostTracker, OwnerInfo, OwnerProbe,
    ProcessProbe,
};

fn owner(path: Option<&str>, exe: Option<&str>, explicit: bool) -> OwnerInfo {
    OwnerInfo {
        display_name: exe.map(|s| s.to_string()),
        icon: None,
        identifier: exe.map(|s| s.to_string()),
        full_path: path.map(|s| s.to_string()),
        is_explicit: explicit,
    }
}

#[test]
fn burst_of_events_settles_on_the_last() {
    let mut d = Debouncer::new();
    let tickets: Vec<u64> = (0..5).map(|_| d.register_event()).collect();
    let proceeding: Vec<u64> = tickets
        .iter()
        .copied()
        .filter(|t| d.settle(*t) == DebounceOutcome::Proceed)
        .collect();
    assert_eq!(proceeding, vec![5]);
    assert_eq!(d.settle(4), DebounceOutcome::Superseded);
}

#[test]
fn single_event_proceeds() {
    let mut d = Debouncer::new();
    let t = d.register_event();
    assert_eq!(t, 1);
    assert_eq!(d.settle(t), DebounceOutcome::Proceed);
}

#[test]
fn own_app_is_recognised() {
    assert!(is_own_app(&None, &Some("ME.XUESHI.PastePaw".to_string())));
    assert!(is_own_app(&Some("PastePaw".to_string()), &None));
    assert!(!is_own_app(&Some("pastepaw".to_string()), &Some("com.apple.Safari".to_string())));
    assert!(!is_own_app(&None, &None));
}

fn snapshot(name: &str, bundle: &str) -> AppSnapshot {
    AppSnapshot {
        name: Some(name.to_string()),
        bundle_id: Some(bundle.to_string()),
        icon: Some("icon".to_string()),
    }
}

#[test]
fn frontmost_foreign_app_is_the_owner() {
    let tracker = FrontmostTracker::new();
    let r = get_frontmost_app_info(&Some(snapshot("Safari", "com.apple.Safari")), &tracker);
    assert_eq!(r.display_name.as_deref(), Some("Safari"));
    assert_eq!(r.identifier.as_deref(), Some("com.apple.Safari"));
    assert_eq!(r.full_path.as_deref(), Some("com.apple.Safari"));
    assert_eq!(r.icon.as_deref(), Some("icon"));
    assert!(r.is_explicit);
}

#[test]
fn own_frontmost_app_falls_back_to_last_foreign_app() {
    let mut tracker = FrontmostTracker::new();
    tracker.remember_activated_app(snapshot("Notes", "com.apple.Notes"));
    tracker.remember_activated_app(snapshot("PastePaw", "me.xueshi.pastepaw"));
    let r = get_frontmost_app_info(&Some(snapshot("PastePaw", "me.xueshi.pastepaw")), &tracker);
    assert_eq!(r.display_name.as_deref(), Some("Notes"));
    assert!(r.is_explicit);
    let empty = FrontmostTracker::new();
    let r = get_frontmost_app_info(&Some(snapshot("PastePaw", "me.xueshi.pastepaw")), &empty);
    assert!(r.display_name.is_none() && !r.is_explicit);
    let r = get_frontmost_app_info(&None, &tracker);
    assert!(r.identifier.is_none() && !r.is_explicit);
}

#[test]
fn owner_handle_prefers_description_then_exe_name() {
    let probe = OwnerProbe {
        is_explicit: true,
        process: Some(ProcessProbe {
            exe_name: "code.exe".to_string(),
            full_path: Some("C:\\Apps\\code.exe".to_string()),
            description: Some("Visual Studio Code".to_string()),
            icon: Some("png".to_string()),
        }),
    };
    let r = get_clipboard_owner_app_info(&probe);
    assert_eq!(r.display_name.as_deref(), Some("Visual Studio Code"));
    assert_eq!(r.identifier.as_deref(), Some("code.exe"));
    assert_eq!(r.full_path.as_deref(), Some("C:\\Apps\\code.exe"));
    assert_eq!(r.icon.as_deref(), Some("png"));
    assert!(r.is_explicit);

    let no_path = OwnerProbe {
        is_explicit: false,
        process: Some(ProcessProbe {
            exe_name: "code.exe".to_string(),
            full_path: None,
            description: Some("ignored".to_string()),
            icon: Some("ignored".to_string()),
        }),
    };
    let r = get_clipboard_owner_app_info(&no_path);
    assert_eq!(r.display_name.as_deref(), Some("code.exe"));
    assert!(r.icon.is_none() && r.full_path.is_none() && !r.is_explicit);

    let nothing = OwnerProbe { is_explicit: true, process: None };
    let r = get_clipboard_owner_app_info(&nothing);
    assert!(r.display_name.is_none() && r.identifier.is_none() && !r.is_explicit);

    let unnamed = OwnerProbe {
        is_explicit: true,
        process: Some(ProcessProbe { exe_name: String::new(), full_path: None, description: None, icon: None }),
    };
    assert!(get_clipboard_owner_app_info(&unnamed).identifier.is_none());
}

#[test]
fn ignored_apps_match_ignoring_case() {
    let apps = vec!["Blocked.EXE".to_string(), "C:\\Tools\\Secret.exe".to_string()];
    assert!(is_ignored(&apps, "blocked.exe"));
    assert!(is_ignored(&apps, "c:\\tools\\SECRET.EXE"));
    assert!(!is_ignored(&apps, "blocked"));
    assert!(!is_ignored(&[].to_vec(), "blocked.exe"));
}

#[test]
fn policy_drops_ignored_apps_and_ghost_clips() {
    let mut settings = AppSettings::default();
    settings.ignored_apps.push("blocked.exe".to_string());
    assert!(!passes_policy(&settings, &owner(None, Some("BLOCKED.exe"), true)));
    assert!(!passes_policy(&settings, &owner(Some("Blocked.exe"), None, true)));
    assert!(passes_policy(&settings, &owner(Some("C:\\a\\other.exe"), Some("other.exe"), true)));
    assert!(passes_policy(&settings, &owner(None, None, false)));
    settings.ignore_ghost_clips = true;
    assert!(!passes_policy(&settings, &owner(None, Some("other.exe"), false)));
    assert!(passes_policy(&settings, &owner(None, Some("other.exe"), true)));
}
