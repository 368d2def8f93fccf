use model_keeper::directory::FileRemoval;
use model_keeper::error::ErrorKind;
use model_keeper::state::AppState;

fn tracked_artifact(s: &mut AppState, path: &str, data: &[u8]) {
    s.start_download(path).unwrap();
    s.apply_progress(path, data.len() as u64, Some(data.len() as u64)).unwrap();
    s.complete_download(path).unwrap();
    s.verify(path, data, 7).unwrap();
}

#[test]
fn delete_clears_every_bucket() {
    let mut s = AppState::new();
    tracked_artifact(&mut s, "m", b"bytes");
    assert!(s.get_download_progress("m").is_some());
    assert!(s.get_cached_integrity("m").is_some());

    s.delete_model_file("m", FileRemoval::Removed).unwrap();
    assert!(s.get_download_progress("m").is_none());
    assert!(s.get_cached_integrity("m").is_none());
}

#[test]
fn delete_twice_never_errors() {
    let mut s = AppState::new();
    tracked_artifact(&mut s, "m", b"bytes");
    s.delete_model_file("m", FileRemoval::Removed).unwrap();
    // Everything is already gone: the second delete is a no-op that
    // still succeeds, the file removal included.
    s.delete_model_file("m", FileRemoval::AlreadyAbsent).unwrap();
    assert!(s.get_download_progress("m").is_none());
    assert!(s.get_cached_integrity("m").is_none());
}

#[test]
fn delete_of_untracked_path_succeeds() {
    let mut s = AppState::new();
    s.delete_model_file("never-seen", FileRemoval::AlreadyAbsent).unwrap();
}

#[test]
fn failed_file_removal_reports_cause_without_rollback() {
    let mut s = AppState::new();
    tracked_artifact(&mut s, "m", b"bytes");
    let e = s
        .delete_model_file("m", FileRemoval::Failed { cause: String::from("device busy") })
        .unwrap_err();
    assert_eq!(e.kind, ErrorKind::IoError);
    assert_eq!(e.describe().as_str(), "device busy");
    // Best-effort semantics: the bucket removals went through and are
    // not rolled back; a retried delete converges.
    assert!(s.get_download_progress("m").is_none());
    assert!(s.get_cached_integrity("m").is_none());
}

#[test]
fn delete_leaves_other_artifacts_alone() {
    let mut s = AppState::new();
    tracked_artifact(&mut s, "a", b"one");
    tracked_artifact(&mut s, "b", b"two");
    s.delete_model_file("a", FileRemoval::Removed).unwrap();
    assert!(s.get_download_progress("a").is_none());
    assert!(s.get_download_progress("b").is_some());
    assert!(s.get_cached_integrity("b").is_some());
}
