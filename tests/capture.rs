use ghview::capture::{
    path_in_dir, resize_target, screenshot_file_name, screenshot_path, select_window,
    window_matches, CaptureAction, CaptureJob, CaptureState,
};

fn names(list: &[Option<&str>]) -> Vec<Option<String>> {
    list.iter().map(|n| n.map(|s| s.to_string())).collect()
}

#[test]
fn application_window_is_found_in_any_case() {
    assert!(window_matches(&Some("GHView".to_string())));
    assert!(window_matches(&Some("ghview".to_string())));
    assert!(!window_matches(&Some("ghview-helper".to_string())));
    assert!(!window_matches(&None));
}

#[test]
fn first_matching_window_is_selected() {
    let list = names(&[Some("Finder"), None, Some("GHVIEW"), Some("ghview")]);
    assert_eq!(select_window(&list), Ok(2));
}

#[test]
fn missing_window_is_reported() {
    let list = names(&[Some("Finder"), None]);
    let e = select_window(&list).unwrap_err();
    assert!(e.contains("not found"));
    assert_eq!(select_window(&Vec::new()).unwrap_err(), e);
}

#[test]
fn retina_capture_is_scaled_to_logical_size() {
    assert_eq!(resize_target((800, 600), (1600, 1200)), Some((800, 600)));
    assert_eq!(resize_target((800, 600), (1600, 600)), Some((800, 600)));
}

#[test]
fn capture_at_ratio_one_is_kept() {
    assert_eq!(resize_target((800, 600), (800, 600)), None);
    assert_eq!(resize_target((800, 600), (400, 300)), None);
}

#[test]
fn file_name_has_prefix_and_millis() {
    assert_eq!(screenshot_file_name(1700000000123), "ghview-screenshot-1700000000123.png");
    assert_eq!(screenshot_file_name(0), "ghview-screenshot-0.png");
    assert_eq!(
        screenshot_file_name(u64::MAX),
        "ghview-screenshot-18446744073709551615.png"
    );
}

#[test]
fn paths_join_with_one_separator() {
    assert_eq!(path_in_dir("/tmp/out", "a.png"), "/tmp/out/a.png");
    assert_eq!(path_in_dir("/tmp/out/", "a.png"), "/tmp/out/a.png");
    assert_eq!(path_in_dir("", "a.png"), "a.png");
    assert_eq!(
        path_in_dir("/tmp/out", "a.png"),
        std::path::Path::new("/tmp/out").join("a.png").to_string_lossy()
    );
}

#[test]
fn different_millis_give_different_files() {
    let a = screenshot_path("/tmp/shots", 1700000000123);
    let b = screenshot_path("/tmp/shots", 1700000000124);
    assert_ne!(a, b);
    assert_eq!(a, "/tmp/shots/ghview-screenshot-1700000000123.png");
}

#[test]
fn capture_job_runs_its_steps_in_order() {
    let (mut job, first) = CaptureJob::start("/tmp/new/dir");
    assert!(matches!(first, CaptureAction::ListWindows));
    let a = job.on_windows(Ok(names(&[Some("Dock"), Some("ghview")])));
    assert!(matches!(a, CaptureAction::EnsureDir(ref d) if d == "/tmp/new/dir"));
    assert!(matches!(job.on_dir_ready(Ok(()), 42), CaptureAction::Capture(1)));
    assert_eq!(job.path, "/tmp/new/dir/ghview-screenshot-42.png");
    match job.on_captured(Ok(((1000, 700), (2000, 1400)))) {
        CaptureAction::Save(p, target) => {
            assert_eq!(p, "/tmp/new/dir/ghview-screenshot-42.png");
            assert_eq!(target, Some((1000, 700)));
        }
        _ => panic!("expected a save"),
    }
    match job.on_saved(Ok(())) {
        CaptureAction::Done(p) => assert_eq!(p, "/tmp/new/dir/ghview-screenshot-42.png"),
        _ => panic!("expected done"),
    }
    assert_eq!(job.state, CaptureState::Finished);
}

#[test]
fn capture_without_window_fails_and_saves_nothing() {
    let (mut job, _) = CaptureJob::start("/no/such/place");
    match job.on_windows(Ok(names(&[Some("Terminal")]))) {
        CaptureAction::Failed(m) => assert!(m.contains("not found")),
        _ => panic!("expected a failure"),
    }
    assert_eq!(job.state, CaptureState::Finished);
    assert!(matches!(job.on_dir_ready(Ok(()), 1), CaptureAction::Failed(_)));
    assert!(matches!(
        job.on_captured(Ok(((10, 10), (10, 10)))),
        CaptureAction::Failed(_)
    ));
}

#[test]
fn capture_failures_carry_their_reason() {
    let (mut job, _) = CaptureJob::start("/root/x");
    job.on_windows(Ok(names(&[Some("ghview")])));
    match job.on_dir_ready(Err("permission denied".to_string()), 1) {
        CaptureAction::Failed(m) => {
            assert_eq!(m, "Failed to create output directory: permission denied")
        }
        _ => panic!("expected a failure"),
    }
    let (mut job, _) = CaptureJob::start("/tmp/y");
    job.on_windows(Ok(names(&[Some("ghview")])));
    job.on_dir_ready(Ok(()), 1);
    match job.on_captured(Ok(((10, 10), (10, 10)))) {
        CaptureAction::Save(_, target) => assert_eq!(target, None),
        _ => panic!("expected a save"),
    }
    match job.on_saved(Err("disk full".to_string())) {
        CaptureAction::Failed(m) => assert_eq!(m, "Failed to save screenshot: disk full"),
        _ => panic!("expected a failure"),
    }
}
