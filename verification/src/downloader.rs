use vstd::prelude::*;

use crate::error::{AppError, ErrorKind};
use crate::record::{DownloadRecord, DownloadStatus};
use crate::state::AppState;

verus! {

/// Starting is allowed when no record exists yet, or when the last
/// attempt sits in `Idle` or `Failed`; a fresh attempt then begins from
/// byte zero.
pub open spec fn start_allowed(m: Map<Seq<char>, DownloadRecord>, path: Seq<char>) -> bool {
    ||| !m.contains_key(path)
    ||| m[path].status is Idle
    ||| m[path].status is Failed
}

/// A progress tick is applied only to an active transfer, only in
/// order (bytes never regress), and only within the declared total.
pub open spec fn progress_allowed(
    m: Map<Seq<char>, DownloadRecord>,
    path: Seq<char>,
    bytes_downloaded: u64,
    total_bytes: Option<u64>,
) -> bool {
    &&& m.contains_key(path)
    &&& m[path].status is Downloading
    &&& m[path].bytes_downloaded <= bytes_downloaded
    &&& (total_bytes matches Some(t) ==> bytes_downloaded <= t)
}

/// Pausing, completing and failing act only on an active transfer.
pub open spec fn transfer_active(m: Map<Seq<char>, DownloadRecord>, path: Seq<char>) -> bool {
    m.contains_key(path) && m[path].status is Downloading
}

/// Resuming needs a paused record with persisted progress.
pub open spec fn resume_allowed(m: Map<Seq<char>, DownloadRecord>, path: Seq<char>) -> bool {
    m.contains_key(path) && m[path].status is Paused
}

/// Resume correctness at the byte level: the prefix fetched before the
/// pause, followed by the remainder fetched from that same offset,
/// is exactly the content of one uninterrupted transfer of the source.
pub proof fn lemma_resume_yields_identical_bytes(source: Seq<u8>, offset: int)
    requires
        0 <= offset <= source.len(),
    ensures
        source.subrange(0, offset) + source.subrange(offset, source.len() as int) == source,
{
    assert(source.subrange(0, offset) + source.subrange(offset, source.len() as int)
        =~= source);
}

impl AppState {
    /// Begin (or, after a failure, retry) the download of an artifact.
    /// On success the record is `Downloading` from byte zero; calling
    /// while a transfer is underway, paused, or already complete is an
    /// invalid transition and leaves the store untouched.
    pub fn start_download(&mut self, path: &str) -> (r: Result<(), AppError>)
        requires
            old(self).wf(),
        ensures
            final(self).wf(),
            final(self).integrity_bucket@ == old(self).integrity_bucket@,
            (if start_allowed(old(self).download_progress_bucket@, path@) {
                &&& r is Ok
                &&& final(self).download_progress_bucket@ == old(self).download_progress_bucket@.insert(
                    path@,
                    (DownloadRecord {
                        bytes_downloaded: 0,
                        total_bytes: None,
                        status: DownloadStatus::Downloading,
                    }),
                )
            } else {
                &&& (r matches Err(e) && e.kind is StateError)
                &&& final(self).download_progress_bucket@ == old(self).download_progress_bucket@
            }),
    {
        let allowed: bool = match self.download_progress_bucket.get(path) {
            None => true,
            Some(rec) => match rec.status {
                DownloadStatus::Idle => true,
                DownloadStatus::Failed { .. } => true,
                _ => false,
            },
        };
        if allowed {
            self.download_progress_bucket.set(
                path,
                DownloadRecord {
                    bytes_downloaded: 0,
                    total_bytes: None,
                    status: DownloadStatus::Downloading,
                },
            );
            Ok(())
        } else {
            Err(AppError::new(ErrorKind::StateError, "download already in progress".to_owned()))
        }
    }

    /// The progress record as the store has it, the single source of
    /// truth for polls; `None` when the artifact was never started.
    pub fn get_download_progress(&self, path: &str) -> (r: Option<&DownloadRecord>)
        requires
            self.wf(),
        ensures
            (match r {
                Some(rec) => self.download_progress_bucket@.contains_key(path@) && *rec
                    == self.download_progress_bucket@[path@],
                None => !self.download_progress_bucket@.contains_key(path@),
            }),
    {
        self.download_progress_bucket.get(path)
    }

    /// Persist one in-order progress tick of an active transfer. A tick
    /// that would make progress regress, overrun the declared total, or
    /// land on a transfer that is not running is refused untouched.
    pub fn apply_progress(
        &mut self,
        path: &str,
        bytes_downloaded: u64,
        total_bytes: Option<u64>,
    ) -> (r: Result<(), AppError>)
        requires
            old(self).wf(),
        ensures
            final(self).wf(),
            final(self).integrity_bucket@ == old(self).integrity_bucket@,
            (if progress_allowed(
                old(self).download_progress_bucket@,
                path@,
                bytes_downloaded,
                total_bytes,
            ) {
                &&& r is Ok
                &&& final(self).download_progress_bucket@ == old(self).download_progress_bucket@.insert(
                    path@,
                    (DownloadRecord {
                        bytes_downloaded,
                        total_bytes,
                        status: DownloadStatus::Downloading,
                    }),
                )
            } else {
                &&& (r matches Err(e) && e.kind is StateError)
                &&& final(self).download_progress_bucket@ == old(self).download_progress_bucket@
            }),
            old(self).download_progress_bucket@.contains_key(path@) && final(self).download_progress_bucket@.contains_key(path@) ==> final(self).download_progress_bucket@[path@].bytes_downloaded >= old(self).download_progress_bucket@[path@].bytes_downloaded,
    {
        let allowed: bool = match self.download_progress_bucket.get(path) {
            Some(rec) => {
                let active = match rec.status {
                    DownloadStatus::Downloading => true,
                    _ => false,
                };
                let within = match total_bytes {
                    Some(t) => bytes_downloaded <= t,
                    None => true,
                };
                active && rec.bytes_downloaded <= bytes_downloaded && within
            },
            None => false,
        };
        if allowed {
            self.download_progress_bucket.set(
                path,
                DownloadRecord {
                    bytes_downloaded,
                    total_bytes,
                    status: DownloadStatus::Downloading,
                },
            );
            Ok(())
        } else {
            Err(AppError::new(ErrorKind::StateError, "transfer is not running".to_owned()))
        }
    }

    /// Stop an active transfer after the current chunk: the persisted
    /// progress is kept and the record becomes `Paused`. On any other
    /// state this is a `StateError` and the store keeps every record
    /// exactly as it was.
    pub fn pause_download(&mut self, path: &str) -> (r: Result<(), AppError>)
        requires
            old(self).wf(),
        ensures
            final(self).wf(),
            final(self).integrity_bucket@ == old(self).integrity_bucket@,
            (if transfer_active(old(self).download_progress_bucket@, path@) {
                &&& r is Ok
                &&& final(self).download_progress_bucket@ == old(self).download_progress_bucket@.insert(
                    path@,
                    (DownloadRecord {
                        bytes_downloaded: old(self).download_progress_bucket@[path@].bytes_downloaded,
                        total_bytes: old(self).download_progress_bucket@[path@].total_bytes,
                        status: DownloadStatus::Paused,
                    }),
                )
            } else {
                &&& (r matches Err(e) && e.kind is StateError)
                &&& final(self).download_progress_bucket@ == old(self).download_progress_bucket@
            }),
            old(self).download_progress_bucket@.contains_key(path@) && final(self).download_progress_bucket@.contains_key(path@) ==> final(self).download_progress_bucket@[path@].bytes_downloaded >= old(self).download_progress_bucket@[path@].bytes_downloaded,
    {
        let mut found: bool = false;
        let mut bytes: u64 = 0;
        let mut total: Option<u64> = None;
        match self.download_progress_bucket.get(path) {
            Some(rec) => {
                match rec.status {
                    DownloadStatus::Downloading => {
                        found = true;
                        bytes = rec.bytes_downloaded;
                        total = rec.total_bytes;
                    },
                    _ => {},
                }
            },
            None => {},
        }
        if found {
            self.download_progress_bucket.set(
                path,
                DownloadRecord {
                    bytes_downloaded: bytes,
                    total_bytes: total,
                    status: DownloadStatus::Paused,
                },
            );
            Ok(())
        } else {
            Err(AppError::new(ErrorKind::StateError, "download is not running".to_owned()))
        }
    }

    /// Resume a paused transfer. On success the returned offset is the
    /// exact byte count persisted at the pause: the range request
    /// against the source restarts there, and the record is active
    /// again with its progress intact. A source that cannot serve
    /// partial content, or a record that is not paused, is not
    /// resumable.
    pub fn resume_download(&mut self, path: &str, source_supports_range: bool) -> (r: Result<
        u64,
        AppError,
    >)
        requires
            old(self).wf(),
        ensures
            final(self).wf(),
            final(self).integrity_bucket@ == old(self).integrity_bucket@,
            (if resume_allowed(old(self).download_progress_bucket@, path@)
                && source_supports_range {
                &&& (r matches Ok(offset) && offset == old(self).download_progress_bucket@[path@].bytes_downloaded)
                &&& final(self).download_progress_bucket@ == old(self).download_progress_bucket@.insert(
                    path@,
                    (DownloadRecord {
                        bytes_downloaded: old(self).download_progress_bucket@[path@].bytes_downloaded,
                        total_bytes: old(self).download_progress_bucket@[path@].total_bytes,
                        status: DownloadStatus::Downloading,
                    }),
                )
            } else {
                &&& (r matches Err(e) && e.kind is StateError)
                &&& final(self).download_progress_bucket@ == old(self).download_progress_bucket@
            }),
            old(self).download_progress_bucket@.contains_key(path@) && final(self).download_progress_bucket@.contains_key(path@) ==> final(self).download_progress_bucket@[path@].bytes_downloaded >= old(self).download_progress_bucket@[path@].bytes_downloaded,
    {
        let mut found: bool = false;
        let mut bytes: u64 = 0;
        let mut total: Option<u64> = None;
        match self.download_progress_bucket.get(path) {
            Some(rec) => {
                match rec.status {
                    DownloadStatus::Paused => {
                        found = true;
                        bytes = rec.bytes_downloaded;
                        total = rec.total_bytes;
                    },
                    _ => {},
                }
            },
            None => {},
        }
        if found && source_supports_range {
            self.download_progress_bucket.set(
                path,
                DownloadRecord {
                    bytes_downloaded: bytes,
                    total_bytes: total,
                    status: DownloadStatus::Downloading,
                },
            );
            Ok(bytes)
        } else {
            Err(AppError::new(ErrorKind::StateError, "download is not resumable".to_owned()))
        }
    }

    /// Natural completion of an active transfer: the record becomes
    /// `Completed`, the total is pinned at the bytes received, and any
    /// stale cached digest for the path is invalidated so the next
    /// verification recomputes it.
    pub fn complete_download(&mut self, path: &str) -> (r: Result<(), AppError>)
        requires
            old(self).wf(),
        ensures
            final(self).wf(),
            (if transfer_active(old(self).download_progress_bucket@, path@) {
                &&& r is Ok
                &&& final(self).download_progress_bucket@ == old(self).download_progress_bucket@.insert(
                    path@,
                    (DownloadRecord {
                        bytes_downloaded: old(self).download_progress_bucket@[path@].bytes_downloaded,
                        total_bytes: Some(
                            old(self).download_progress_bucket@[path@].bytes_downloaded,
                        ),
                        status: DownloadStatus::Completed,
                    }),
                )
                &&& final(self).integrity_bucket@ == old(self).integrity_bucket@.remove(path@)
            } else {
                &&& (r matches Err(e) && e.kind is StateError)
                &&& final(self).download_progress_bucket@ == old(self).download_progress_bucket@
                &&& final(self).integrity_bucket@ == old(self).integrity_bucket@
            }),
            old(self).download_progress_bucket@.contains_key(path@) && final(self).download_progress_bucket@.contains_key(path@) ==> final(self).download_progress_bucket@[path@].bytes_downloaded >= old(self).download_progress_bucket@[path@].bytes_downloaded,
    {
        let mut found: bool = false;
        let mut bytes: u64 = 0;
        match self.download_progress_bucket.get(path) {
            Some(rec) => {
                match rec.status {
                    DownloadStatus::Downloading => {
                        found = true;
                        bytes = rec.bytes_downloaded;
                    },
                    _ => {},
                }
            },
            None => {},
        }
        if found {
            self.download_progress_bucket.set(
                path,
                DownloadRecord {
                    bytes_downloaded: bytes,
                    total_bytes: Some(bytes),
                    status: DownloadStatus::Completed,
                },
            );
            self.integrity_bucket.remove(path);
            Ok(())
        } else {
            Err(AppError::new(ErrorKind::StateError, "download is not running".to_owned()))
        }
    }

    /// Mark an active transfer failed, recording why and keeping the
    /// progress made, so that a later retry may start over.
    pub fn fail_download(&mut self, path: &str, reason: String) -> (r: Result<(), AppError>)
        requires
            old(self).wf(),
        ensures
            final(self).wf(),
            final(self).integrity_bucket@ == old(self).integrity_bucket@,
            (if transfer_active(old(self).download_progress_bucket@, path@) {
                &&& r is Ok
                &&& final(self).download_progress_bucket@ == old(self).download_progress_bucket@.insert(
                    path@,
                    (DownloadRecord {
                        bytes_downloaded: old(self).download_progress_bucket@[path@].bytes_downloaded,
                        total_bytes: old(self).download_progress_bucket@[path@].total_bytes,
                        status: DownloadStatus::Failed { reason },
                    }),
                )
            } else {
                &&& (r matches Err(e) && e.kind is StateError)
                &&& final(self).download_progress_bucket@ == old(self).download_progress_bucket@
            }),
    {
        let mut found: bool = false;
        let mut bytes: u64 = 0;
        let mut total: Option<u64> = None;
        match self.download_progress_bucket.get(path) {
            Some(rec) => {
                match rec.status {
                    DownloadStatus::Downloading => {
                        found = true;
                        bytes = rec.bytes_downloaded;
                        total = rec.total_bytes;
                    },
                    _ => {},
                }
            },
            None => {},
        }
        if found {
            self.download_progress_bucket.set(
                path,
                DownloadRecord {
                    bytes_downloaded: bytes,
                    total_bytes: total,
                    status: DownloadStatus::Failed { reason },
                },
            );
            Ok(())
        } else {
            Err(AppError::new(ErrorKind::StateError, "download is not running".to_owned()))
        }
    }
}

} // verus!
