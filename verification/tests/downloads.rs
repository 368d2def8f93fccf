use model_keeper::error::ErrorKind;
use model_keeper::record::DownloadStatus;
use model_keeper::state::AppState;

#[test]
fn download_lifecycle() {
    let mut s = AppState::new();
    assert!(s.get_download_progress("model.bin").is_none());

    s.start_download("model.bin").unwrap();
    let rec = s.get_download_progress("model.bin").unwrap();
    assert_eq!(rec.bytes_downloaded, 0);
    assert_eq!(rec.total_bytes, None);
    assert!(matches!(rec.status, DownloadStatus::Downloading));

    s.apply_progress("model.bin", 1024, Some(4096)).unwrap();
    s.apply_progress("model.bin", 4096, Some(4096)).unwrap();
    s.complete_download("model.bin").unwrap();
    let rec = s.get_download_progress("model.bin").unwrap();
    assert_eq!(rec.bytes_downloaded, 4096);
    assert_eq!(rec.total_bytes, Some(4096));
    assert!(matches!(rec.status, DownloadStatus::Completed));
}

#[test]
fn start_while_downloading_fails() {
    let mut s = AppState::new();
    s.start_download("m").unwrap();
    let e = s.start_download("m").unwrap_err();
    assert_eq!(e.kind, ErrorKind::StateError);
}

#[test]
fn start_on_paused_or_completed_fails() {
    let mut s = AppState::new();
    s.start_download("m").unwrap();
    s.apply_progress("m", 3, Some(9)).unwrap();
    s.pause_download("m").unwrap();
    // A paused download is resumed, not started over.
    let e = s.start_download("m").unwrap_err();
    assert_eq!(e.kind, ErrorKind::StateError);
    assert_eq!(s.get_download_progress("m").unwrap().bytes_downloaded, 3);

    s.resume_download("m", true).unwrap();
    s.complete_download("m").unwrap();
    // Completed is terminal until the artifact is deleted.
    let e = s.start_download("m").unwrap_err();
    assert_eq!(e.kind, ErrorKind::StateError);
    assert!(matches!(
        s.get_download_progress("m").unwrap().status,
        DownloadStatus::Completed
    ));
}

#[test]
fn pause_on_wrong_state_has_no_effect() {
    let mut s = AppState::new();

    // Never started: no record to pause.
    let e = s.pause_download("m").unwrap_err();
    assert_eq!(e.kind, ErrorKind::StateError);
    assert!(s.get_download_progress("m").is_none());

    // Paused: pausing again fails and the record is untouched.
    s.start_download("m").unwrap();
    s.apply_progress("m", 7, Some(10)).unwrap();
    s.pause_download("m").unwrap();
    let e = s.pause_download("m").unwrap_err();
    assert_eq!(e.kind, ErrorKind::StateError);
    let rec = s.get_download_progress("m").unwrap();
    assert_eq!(rec.bytes_downloaded, 7);
    assert!(matches!(rec.status, DownloadStatus::Paused));

    // Completed: pausing fails and the record is untouched.
    s.resume_download("m", true).unwrap();
    s.complete_download("m").unwrap();
    let e = s.pause_download("m").unwrap_err();
    assert_eq!(e.kind, ErrorKind::StateError);
    let rec = s.get_download_progress("m").unwrap();
    assert!(matches!(rec.status, DownloadStatus::Completed));
}

#[test]
fn progress_is_monotone_across_polls() {
    let mut s = AppState::new();
    s.start_download("m").unwrap();
    let mut last: u64 = s.get_download_progress("m").unwrap().bytes_downloaded;
    let ticks: Vec<u64> = vec![10, 10, 350, 500];
    for t in ticks {
        s.apply_progress("m", t, Some(500)).unwrap();
        let seen = s.get_download_progress("m").unwrap().bytes_downloaded;
        assert!(seen >= last);
        last = seen;
    }
    s.pause_download("m").unwrap();
    assert!(s.get_download_progress("m").unwrap().bytes_downloaded >= last);
    s.resume_download("m", true).unwrap();
    assert!(s.get_download_progress("m").unwrap().bytes_downloaded >= last);
    s.complete_download("m").unwrap();
    assert!(s.get_download_progress("m").unwrap().bytes_downloaded >= last);
}

#[test]
fn regressing_progress_is_refused() {
    let mut s = AppState::new();
    s.start_download("m").unwrap();
    s.apply_progress("m", 100, Some(500)).unwrap();
    let e = s.apply_progress("m", 99, Some(500)).unwrap_err();
    assert_eq!(e.kind, ErrorKind::StateError);
    assert_eq!(s.get_download_progress("m").unwrap().bytes_downloaded, 100);
    let e = s.apply_progress("m", 501, Some(500)).unwrap_err();
    assert_eq!(e.kind, ErrorKind::StateError);
}

#[test]
fn resume_restarts_at_persisted_offset() {
    let mut s = AppState::new();
    s.start_download("m").unwrap();
    s.apply_progress("m", 2048, Some(8192)).unwrap();
    s.pause_download("m").unwrap();
    let offset = s.resume_download("m", true).unwrap();
    assert_eq!(offset, 2048);
    let rec = s.get_download_progress("m").unwrap();
    assert_eq!(rec.bytes_downloaded, 2048);
    assert!(matches!(rec.status, DownloadStatus::Downloading));
}

#[test]
fn resume_needs_pause_and_range_support() {
    let mut s = AppState::new();
    let e = s.resume_download("m", true).unwrap_err();
    assert_eq!(e.kind, ErrorKind::StateError);

    s.start_download("m").unwrap();
    let e = s.resume_download("m", true).unwrap_err();
    assert_eq!(e.kind, ErrorKind::StateError);

    s.apply_progress("m", 5, None).unwrap();
    s.pause_download("m").unwrap();
    let e = s.resume_download("m", false).unwrap_err();
    assert_eq!(e.kind, ErrorKind::StateError);
    let rec = s.get_download_progress("m").unwrap();
    assert!(matches!(rec.status, DownloadStatus::Paused));
}

#[test]
fn failed_download_keeps_reason_and_can_retry() {
    let mut s = AppState::new();
    s.start_download("m").unwrap();
    s.apply_progress("m", 42, None).unwrap();
    s.fail_download("m", String::from("connection reset")).unwrap();
    let rec = s.get_download_progress("m").unwrap();
    assert_eq!(rec.bytes_downloaded, 42);
    match &rec.status {
        DownloadStatus::Failed { reason } => assert_eq!(reason.as_str(), "connection reset"),
        _ => panic!("expected a failed record"),
    }

    // Retry is allowed and starts over from byte zero.
    s.start_download("m").unwrap();
    let rec = s.get_download_progress("m").unwrap();
    assert_eq!(rec.bytes_downloaded, 0);
    assert!(matches!(rec.status, DownloadStatus::Downloading));

    // Failing a transfer that is not running is an invalid transition.
    let mut s2 = AppState::new();
    let e = s2.fail_download("m", String::from("x")).unwrap_err();
    assert_eq!(e.kind, ErrorKind::StateError);
}
