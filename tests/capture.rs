use bettershot::{
    capture_destination, capture_file_name, capture_outcome, check_and_activate_permission,
    is_screencapture_running, join_path, mentions_permission_denial, primary_monitor, probe_args,
    screencapture_args, CaptureCoordinator, CaptureError, CaptureMode, Platform, ProbeOutcome,
};

#[test]
fn second_capture_while_one_is_in_flight_fails() {
    let mut c = CaptureCoordinator::new();
    assert!(!c.is_busy());
    assert!(c.try_begin(Platform::MacOs, false).is_ok());
    assert!(c.is_busy());
    let second = c.try_begin(Platform::MacOs, false);
    assert!(matches!(second, Err(CaptureError::AlreadyInProgress)));
    let third = c.try_begin(Platform::Windows, false);
    assert!(matches!(third, Err(CaptureError::AlreadyInProgress)));
    assert!(c.is_busy());
    c.finish();
    assert!(!c.is_busy());
    assert!(c.try_begin(Platform::Windows, false).is_ok());
}

#[test]
fn running_tool_blocks_capture_on_macos_only() {
    let mut c = CaptureCoordinator::new();
    let r = c.try_begin(Platform::MacOs, true);
    assert!(matches!(r, Err(CaptureError::AlreadyInProgress)));
    assert!(!c.is_busy());
    assert!(c.try_begin(Platform::Windows, true).is_ok());
}

#[test]
fn conflict_message() {
    assert_eq!(
        CaptureError::AlreadyInProgress.message(),
        "Another screenshot capture is already in progress"
    );
    assert_eq!(
        CaptureError::ToolFailed("No such file".to_string()).message(),
        "Failed to run screencapture: No such file"
    );
    assert_eq!(
        CaptureError::Unsupported(CaptureMode::Window).message(),
        "Window capture not supported on this platform"
    );
}

#[test]
fn denial_phrases_are_recognised() {
    assert!(mentions_permission_denial("screencapture: permission check failed"));
    assert!(mentions_permission_denial("access denied"));
    assert!(mentions_permission_denial("the app is not authorized to record"));
    assert!(!mentions_permission_denial("could not create image from display"));
    assert!(!mentions_permission_denial(""));
    assert!(!mentions_permission_denial("Permission"));
}

#[test]
fn lookup_of_running_tool() {
    assert!(is_screencapture_running(Platform::MacOs, Some(true)));
    assert!(!is_screencapture_running(Platform::MacOs, Some(false)));
    assert!(!is_screencapture_running(Platform::MacOs, None));
    assert!(!is_screencapture_running(Platform::Windows, Some(true)));
}

#[test]
fn permission_probe_outcomes() {
    let denied = ProbeOutcome::Ran("could not capture: not authorized".to_string());
    assert!(matches!(
        check_and_activate_permission(Platform::MacOs, &denied),
        Err(CaptureError::PermissionNotGranted)
    ));
    let spawn = ProbeOutcome::SpawnFailed("Operation denied".to_string());
    assert!(matches!(
        check_and_activate_permission(Platform::MacOs, &spawn),
        Err(CaptureError::PermissionNotGranted)
    ));
    let fine = ProbeOutcome::Ran(String::new());
    assert!(check_and_activate_permission(Platform::MacOs, &fine).is_ok());
    let missing = ProbeOutcome::SpawnFailed("No such file or directory".to_string());
    assert!(check_and_activate_permission(Platform::MacOs, &missing).is_ok());
    assert!(check_and_activate_permission(Platform::Windows, &denied).is_ok());
}

#[test]
fn tool_arguments_per_mode() {
    assert_eq!(screencapture_args(CaptureMode::Interactive, "/tmp/a.png"), vec!["-i", "-x", "/tmp/a.png"]);
    assert_eq!(screencapture_args(CaptureMode::Fullscreen, "/tmp/a.png"), vec!["-x", "/tmp/a.png"]);
    assert_eq!(screencapture_args(CaptureMode::Window, "/tmp/a.png"), vec!["-w", "-x", "/tmp/a.png"]);
    assert_eq!(probe_args("/tmp/p.png"), vec!["-x", "-T", "0", "/tmp/p.png"]);
}

#[test]
fn outcome_of_interactive_capture() {
    let p = "/tmp/s.png".to_string();
    let ok = capture_outcome(CaptureMode::Interactive, true, "", true, p.clone());
    assert_eq!(ok.unwrap(), "/tmp/s.png");
    let cancelled = capture_outcome(CaptureMode::Interactive, true, "", false, p.clone());
    assert!(matches!(cancelled, Err(CaptureError::Cancelled)));
    let failed = capture_outcome(CaptureMode::Window, false, "some error", true, p.clone());
    assert!(matches!(failed, Err(CaptureError::Cancelled)));
    let denied = capture_outcome(CaptureMode::Interactive, false, "permission denied", false, p.clone());
    assert!(matches!(denied, Err(CaptureError::PermissionRequired)));
}

#[test]
fn outcome_of_fullscreen_capture() {
    let p = "/tmp/s.png".to_string();
    assert_eq!(capture_outcome(CaptureMode::Fullscreen, true, "", true, p.clone()).unwrap(), p);
    let a = capture_outcome(CaptureMode::Fullscreen, false, "permission denied", true, p.clone());
    assert!(matches!(a, Err(CaptureError::Failed)));
    let b = capture_outcome(CaptureMode::Fullscreen, true, "", false, p.clone());
    assert!(matches!(b, Err(CaptureError::Failed)));
    assert_eq!(b.unwrap_err().message(), "Screenshot failed");
}

#[test]
fn first_monitor_is_primary() {
    assert_eq!(primary_monitor(3).unwrap(), 0);
    let none = primary_monitor(0);
    assert!(matches!(none, Err(CaptureError::NoMonitors)));
}

#[test]
fn destination_paths() {
    assert_eq!(capture_file_name("20240101_120000"), "screenshot_20240101_120000.png");
    assert_eq!(
        capture_destination(Platform::MacOs, "/tmp", "1"),
        "/tmp/screenshot_1.png"
    );
    assert_eq!(
        capture_destination(Platform::MacOs, "/tmp/", "1"),
        "/tmp/screenshot_1.png"
    );
    assert_eq!(
        capture_destination(Platform::Windows, "C:\\shots", "1"),
        "C:\\shots\\screenshot_1.png"
    );
    assert_eq!(join_path(Platform::Windows, "C:/shots/", "a.png"), "C:/shots/a.png");
    assert_eq!(join_path(Platform::MacOs, "dir\\", "a.png"), "dir\\/a.png");
    assert_eq!(join_path(Platform::MacOs, "", "a.png"), "a.png");
}
