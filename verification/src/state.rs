use vstd::prelude::*;

use crate::bucket::Bucket;
use crate::record::{DownloadRecord, IntegrityRecord};

verus! {

/// The application-wide context: every bucket the manager owns,
/// constructed once at startup and passed into every command.
///
/// Adding another per-artifact bucket means adding a field here and a
/// removal to the composite delete; no existing contract changes.
pub struct AppState {
    pub download_progress_bucket: Bucket<DownloadRecord>,
    pub integrity_bucket: Bucket<IntegrityRecord>,
}

impl AppState {
    /// Well-formedness of the whole store:
    /// - both buckets are well-formed;
    /// - every download record respects its own invariant;
    /// - a digest is cached only for an artifact whose download is
    ///   `Completed` — a digest for an incomplete file is never trusted.
    pub open spec fn wf(&self) -> bool {
        &&& self.download_progress_bucket.inv()
        &&& self.integrity_bucket.inv()
        &&& forall|k: Seq<char>| #[trigger]
            self.download_progress_bucket@.contains_key(k)
                ==> self.download_progress_bucket@[k].wf()
        &&& forall|k: Seq<char>| #[trigger]
            self.integrity_bucket@.contains_key(k) ==> self.download_progress_bucket@.contains_key(
                k,
            ) && self.download_progress_bucket@[k].status is Completed
    }

    /// A fresh store with empty buckets.
    pub fn new() -> (s: AppState)
        ensures
            s.wf(),
            s.download_progress_bucket@ == Map::<Seq<char>, DownloadRecord>::empty(),
            s.integrity_bucket@ == Map::<Seq<char>, IntegrityRecord>::empty(),
    {
        AppState {
            download_progress_bucket: Bucket::new(),
            integrity_bucket: Bucket::new(),
        }
    }
}

} // verus!
