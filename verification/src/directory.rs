use vstd::prelude::*;

use crate::error::{AppError, ErrorKind};
use crate::state::AppState;

verus! {

/// The outcome of the filesystem removal that the caller ran for the
/// artifact, alongside the bucket removals. A file that was already
/// gone counts as removed: that is what lets a retried delete succeed.
#[derive(Debug)]
pub enum FileRemoval {
    Removed,
    AlreadyAbsent,
    Failed { cause: String },
}

/// Deleting is idempotent at the store: removing a key that the first
/// removal already took out changes nothing, so a second delete of the
/// same path leaves every bucket exactly as the first one left it.
pub proof fn lemma_delete_twice_converges<V>(m: Map<Seq<char>, V>, path: Seq<char>)
    ensures
        m.remove(path).remove(path) == m.remove(path),
{
    assert(m.remove(path).remove(path) =~= m.remove(path));
}

impl AppState {
    /// Remove every trace of an artifact as one logical unit: its file
    /// on disk (whose removal the caller ran concurrently, handing in
    /// the outcome) and its entries in every bucket. All removals are
    /// attempted; if the file removal failed, the delete as a whole
    /// fails with that cause, but the bucket removals are not rolled
    /// back — best-effort by design, and, with removal of a missing
    /// key a no-op, a retried delete converges.
    pub fn delete_model_file(&mut self, path: &str, file_removal: FileRemoval) -> (r: Result<
        (),
        AppError,
    >)
        requires
            old(self).wf(),
        ensures
            final(self).wf(),
            final(self).integrity_bucket@ == old(self).integrity_bucket@.remove(path@),
            final(self).download_progress_bucket@ == old(self).download_progress_bucket@.remove(
                path@,
            ),
            (match file_removal {
                FileRemoval::Failed { cause } => r matches Err(e) && e.kind is IoError
                    && e.message@ == cause@,
                _ => r is Ok,
            }),
    {
        self.integrity_bucket.remove(path);
        self.download_progress_bucket.remove(path);
        match file_removal {
            FileRemoval::Failed { cause } => Err(AppError::new(ErrorKind::IoError, cause)),
            _ => Ok(()),
        }
    }
}

} // verus!
