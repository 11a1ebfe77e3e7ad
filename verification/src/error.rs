//! Error kinds surfaced by the storage device layer.

use vstd::prelude::*;

verus! {

/// The kind of failure reported by the device layer and by the caches below it.
#[derive(Clone, Copy, Debug, PartialEq, Eq, Structural)]
pub enum StorageError {
    /// A malformed request, an unsupported operation or a misconfiguration.
    InvalidInput,
    /// The backend reports that the blob or the range is missing.
    NotFound,
    /// A transport or local disk failure, short reads included.
    Io,
    /// The digest of a chunk does not match after decompression.
    DataCorrupted,
    /// The request targets a capability that the cache lacks.
    Unsupported,
}

} // verus!
