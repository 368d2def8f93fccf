use vstd::prelude::*;

use crate::error::{AppError, ErrorKind};
use crate::record::IntegrityRecord;
use crate::state::AppState;

verus! {

/// The content digest of a byte sequence. Left uninterpreted: the
/// digest routine relied on below is a function of the contents alone,
/// and nothing else is assumed of its value.
pub uninterp spec fn digest_of(data: Seq<u8>) -> Seq<u8>;

/// Relies on sha2::Sha256 through digest::Digest::digest: a 256-bit
/// cryptographic digest computed from the input bytes alone.
#[verifier::external_body]
fn sha256_digest(data: &[u8]) -> (r: Vec<u8>)
    ensures
        r@ == digest_of(data@),
{
    <sha2::Sha256 as sha2::Digest>::digest(data).to_vec()
}

fn bytes_equal(a: &Vec<u8>, b: &Vec<u8>) -> (r: bool)
    ensures
        r == (a@ == b@),
{
    if a.len() != b.len() {
        proof {
            assert(a@ != b@);
        }
        return false;
    }
    let n = a.len();
    let mut i: usize = 0;
    while i < n
        invariant
            n == a@.len(),
            n == b@.len(),
            i <= n,
            forall|j: int| 0 <= j < i ==> a@[j] == b@[j],
        decreases n - i,
    {
        if a[i] != b[i] {
            proof {
                assert(a@[i as int] != b@[i as int]);
            }
            return false;
        }
        i += 1;
    }
    proof {
        assert(a@ =~= b@);
    }
    true
}

/// The digest the cache holds for a path, if any.
pub open spec fn cached_digest_of(m: Map<Seq<char>, IntegrityRecord>, path: Seq<char>) -> Option<
    Seq<u8>,
> {
    if m.contains_key(path) {
        Some(m[path].digest@)
    } else {
        None
    }
}

/// How a verification request resolves against the store.
#[derive(Clone, Copy, PartialEq, Eq, Structural, Debug)]
pub enum VerifyDecision {
    /// Nothing was cached and the download is complete: the fresh
    /// digest is stored and returned.
    StoreFresh,
    /// The cached digest agrees with the fresh one: returned as is,
    /// nothing written.
    CacheHit,
    /// The cached digest disagrees with the fresh one: the file is
    /// considered corrupted, and the cache is left untouched.
    Mismatch,
    /// Nothing was cached and the download is not complete: a digest
    /// of an incomplete file is never trusted, so nothing is stored.
    NotCompleted,
}

/// The decision `verify` makes, as a function of the store and the
/// fresh digest of the file's bytes.
pub open spec fn verify_decision(
    downloads: Map<Seq<char>, crate::record::DownloadRecord>,
    integrity: Map<Seq<char>, IntegrityRecord>,
    path: Seq<char>,
    fresh: Seq<u8>,
) -> VerifyDecision {
    match cached_digest_of(integrity, path) {
        Some(c) => if c == fresh {
            VerifyDecision::CacheHit
        } else {
            VerifyDecision::Mismatch
        },
        None => if downloads.contains_key(path) && downloads[path].status is Completed {
            VerifyDecision::StoreFresh
        } else {
            VerifyDecision::NotCompleted
        },
    }
}

/// A verification that succeeded leaves the cache holding exactly the
/// digest of the file's bytes — whether it stored it or found it — so
/// a second verification of the same, unmodified contents is a cache
/// hit: it returns the same digest and writes nothing.
pub proof fn lemma_second_verify_is_cache_hit(
    downloads: Map<Seq<char>, crate::record::DownloadRecord>,
    integrity: Map<Seq<char>, IntegrityRecord>,
    path: Seq<char>,
    fresh: Seq<u8>,
)
    requires
        integrity.contains_key(path),
        integrity[path].digest@ == fresh,
    ensures
        verify_decision(downloads, integrity, path, fresh) is CacheHit,
{
}

/// Tampering is surfaced, never papered over: whenever the cache holds
/// a digest that disagrees with the digest of the bytes on disk, the
/// decision is a mismatch — which `verify` reports as an error while
/// leaving the cached digest exactly as it was.
pub proof fn lemma_tamper_is_reported(
    downloads: Map<Seq<char>, crate::record::DownloadRecord>,
    integrity: Map<Seq<char>, IntegrityRecord>,
    path: Seq<char>,
    fresh: Seq<u8>,
)
    requires
        integrity.contains_key(path),
        integrity[path].digest@ != fresh,
    ensures
        verify_decision(downloads, integrity, path, fresh) is Mismatch,
{
}

/// A digest for an incomplete file is never trusted: in every
/// well-formed store, a cached digest exists only for an artifact
/// whose download is `Completed`. Every operation of the manager
/// keeps the store well-formed.
pub proof fn lemma_cached_digest_only_when_completed(s: &AppState, path: Seq<char>)
    requires
        s.wf(),
        s.integrity_bucket@.contains_key(path),
    ensures
        s.download_progress_bucket@.contains_key(path),
        s.download_progress_bucket@[path].status is Completed,
{
}

/// The digest of a byte string, for callers that hold the file's
/// contents. Reading the file — and failing with an I/O error when it
/// cannot be read — belongs to the edge that hands the bytes in.
pub fn compute_integrity(data: &[u8]) -> (digest: Vec<u8>)
    ensures
        digest@ == digest_of(data@),
{
    sha256_digest(data)
}

impl AppState {
    /// The cached digest for a path. `None` when nothing is cached;
    /// by the store's invariant a cached digest exists only for a
    /// download that is `Completed`.
    pub fn get_cached_integrity(&self, path: &str) -> (r: Option<&Vec<u8>>)
        requires
            self.wf(),
        ensures
            (match r {
                Some(d) => cached_digest_of(self.integrity_bucket@, path@) == Some(d@)
                    && self.download_progress_bucket@.contains_key(path@)
                    && self.download_progress_bucket@[path@].status is Completed,
                None => cached_digest_of(self.integrity_bucket@, path@) is None,
            }),
    {
        match self.integrity_bucket.get(path) {
            Some(rec) => Some(&rec.digest),
            None => None,
        }
    }

    /// Verify an artifact against the integrity cache, given the bytes
    /// read from disk and the current time. The digest of the bytes is
    /// computed and compared with the cached one if present; if absent
    /// it is stored, provided the download is complete. A disagreement
    /// is a `VerificationMismatch` and the cached value is kept — the
    /// corruption is surfaced, not silently "fixed". On success the
    /// returned digest is exactly the digest of the bytes.
    pub fn verify(&mut self, path: &str, data: &[u8], now: u64) -> (r: Result<Vec<u8>, AppError>)
        requires
            old(self).wf(),
        ensures
            final(self).wf(),
            final(self).download_progress_bucket@ == old(self).download_progress_bucket@,
            (match verify_decision(
                old(self).download_progress_bucket@,
                old(self).integrity_bucket@,
                path@,
                digest_of(data@),
            ) {
                VerifyDecision::CacheHit => (r matches Ok(d) && d@ == digest_of(data@)) && final(self).integrity_bucket@ == old(self).integrity_bucket@,
                VerifyDecision::StoreFresh => (r matches Ok(d) && d@ == digest_of(data@))
                    && final(self).integrity_bucket@.contains_key(path@)
                    && final(self).integrity_bucket@[path@].digest@ == digest_of(data@)
                    && final(self).integrity_bucket@[path@].computed_at == now
                    && final(self).integrity_bucket@.remove(path@) == old(self).integrity_bucket@.remove(path@),
                VerifyDecision::Mismatch => (r matches Err(e) && e.kind is VerificationMismatch)
                    && final(self).integrity_bucket@ == old(self).integrity_bucket@,
                VerifyDecision::NotCompleted => (r matches Err(e) && e.kind is StateError) && final(self).integrity_bucket@ == old(self).integrity_bucket@,
            }),
    {
        let fresh = sha256_digest(data);
        let mut cached: bool = false;
        let mut agrees: bool = false;
        match self.integrity_bucket.get(path) {
            Some(rec) => {
                cached = true;
                agrees = bytes_equal(&rec.digest, &fresh);
            },
            None => {},
        }
        if cached {
            if agrees {
                Ok(fresh)
            } else {
                Err(
                    AppError::new(
                        ErrorKind::VerificationMismatch,
                        "digest does not match the cached value".to_owned(),
                    ),
                )
            }
        } else {
            let completed: bool = match self.download_progress_bucket.get(path) {
                Some(rec) => match rec.status {
                    crate::record::DownloadStatus::Completed => true,
                    _ => false,
                },
                None => false,
            };
            if completed {
                let stored = sha256_digest(data);
                self.integrity_bucket.set(
                    path,
                    IntegrityRecord { digest: stored, computed_at: now },
                );
                Ok(fresh)
            } else {
                Err(
                    AppError::new(
                        ErrorKind::StateError,
                        "download is not complete, digest not trusted".to_owned(),
                    ),
                )
            }
        }
    }
}

} // verus!
