//! Download and integrity manager for locally tracked model artifacts.
//!
//! The library owns the logic of the manager: the per-artifact download
//! state machine, the key-value bucket model that backs durable progress
//! and digest records, the integrity-verification cache, the composite
//! delete that clears every trace of an artifact, and the supervision
//! protocol that ties an external worker process to the host's lifetime.
//! Filesystem, network and process I/O live outside the library and hand
//! it plain values.

pub mod bucket;
pub mod directory;
pub mod downloader;
pub mod error;
pub mod integrity;
pub mod record;
pub mod state;
pub mod supervisor;
