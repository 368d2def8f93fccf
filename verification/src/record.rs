use vstd::prelude::*;

verus! {

/// The phases of a single artifact download.
///
/// Transitions are owned by the download manager alone:
/// `Idle -> Downloading -> {Paused, Completed, Failed}`,
/// `Paused -> Downloading`, `Failed -> Downloading` (retry),
/// and `Completed` is terminal until the artifact is deleted.
#[derive(Debug)]
pub enum DownloadStatus {
    Idle,
    Downloading,
    Paused,
    Completed,
    Failed { reason: String },
}

/// Durable per-artifact download progress, keyed by artifact path.
#[derive(Debug)]
pub struct DownloadRecord {
    pub bytes_downloaded: u64,
    pub total_bytes: Option<u64>,
    pub status: DownloadStatus,
}

impl DownloadRecord {
    /// When the total size is known, progress never exceeds it.
    pub open spec fn wf(self) -> bool {
        match self.total_bytes {
            Some(t) => self.bytes_downloaded <= t,
            None => true,
        }
    }
}

/// Durable digest record for a fully downloaded artifact: its content
/// digest and when it was computed.
#[derive(Debug)]
pub struct IntegrityRecord {
    pub digest: Vec<u8>,
    pub computed_at: u64,
}

} // verus!
