use model_keeper::error::ErrorKind;
use model_keeper::integrity::compute_integrity;
use model_keeper::state::AppState;

fn completed_artifact(s: &mut AppState, path: &str, data: &[u8]) {
    s.start_download(path).unwrap();
    s.apply_progress(path, data.len() as u64, Some(data.len() as u64)).unwrap();
    s.complete_download(path).unwrap();
}

#[test]
fn digest_has_known_value() {
    // The SHA-256 digest of "abc", as published with the algorithm.
    let expected: Vec<u8> = vec![
        0xba, 0x78, 0x16, 0xbf, 0x8f, 0x01, 0xcf, 0xea, 0x41, 0x41, 0x40, 0xde, 0x5d, 0xae,
        0x22, 0x23, 0xb0, 0x03, 0x61, 0xa3, 0x96, 0x17, 0x7a, 0x9c, 0xb4, 0x10, 0xff, 0x61,
        0xf2, 0x00, 0x15, 0xad,
    ];
    assert_eq!(compute_integrity(b"abc"), expected);
    assert_ne!(compute_integrity(b"abd"), expected);
}

#[test]
fn verify_before_completion_is_refused() {
    let mut s = AppState::new();
    let e = s.verify("m", b"bytes", 1).unwrap_err();
    assert_eq!(e.kind, ErrorKind::StateError);
    assert!(s.get_cached_integrity("m").is_none());

    s.start_download("m").unwrap();
    let e = s.verify("m", b"bytes", 2).unwrap_err();
    assert_eq!(e.kind, ErrorKind::StateError);
    assert!(s.get_cached_integrity("m").is_none());
}

#[test]
fn verify_twice_returns_same_digest() {
    let mut s = AppState::new();
    completed_artifact(&mut s, "m", b"model bytes");

    let first = s.verify("m", b"model bytes", 100).unwrap();
    assert_eq!(first, compute_integrity(b"model bytes"));
    assert_eq!(s.get_cached_integrity("m"), Some(&first));

    // Unmodified contents: the second verification agrees with the
    // cache, returns the same digest, and writes nothing.
    let second = s.verify("m", b"model bytes", 200).unwrap();
    assert_eq!(second, first);
    assert_eq!(s.get_cached_integrity("m"), Some(&first));
}

#[test]
fn tampered_contents_are_reported_not_fixed() {
    let mut s = AppState::new();
    completed_artifact(&mut s, "m", b"original");
    let cached = s.verify("m", b"original", 1).unwrap();

    let e = s.verify("m", b"tampered", 2).unwrap_err();
    assert_eq!(e.kind, ErrorKind::VerificationMismatch);
    // The cached digest is surfaced as stale, never overwritten.
    assert_eq!(s.get_cached_integrity("m"), Some(&cached));
}

#[test]
fn completion_invalidates_stale_digest() {
    let mut s = AppState::new();
    completed_artifact(&mut s, "m", b"v1");
    s.verify("m", b"v1", 1).unwrap();
    assert!(s.get_cached_integrity("m").is_some());

    // A new download of the same path (after a delete) completes: the
    // stale digest is dropped so the next verification recomputes it.
    s.delete_model_file("m", model_keeper::directory::FileRemoval::Removed).unwrap();
    assert!(s.get_cached_integrity("m").is_none());
    s.start_download("m").unwrap();
    s.apply_progress("m", 2, Some(2)).unwrap();
    s.complete_download("m").unwrap();
    assert!(s.get_cached_integrity("m").is_none());
    let fresh = s.verify("m", b"v2", 2).unwrap();
    assert_eq!(fresh, compute_integrity(b"v2"));
}
