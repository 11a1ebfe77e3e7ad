//! What the device layer asks of the per-blob caches below it.
//!
//! A cache serves the chunk reads of one blob: it knows which chunks are in
//! local storage, fetches the others from the storage backend, and may hand
//! out the cache file for direct access. The traits of this module are
//! implemented by the caches; the device layer only calls them.

use crate::blob_info::BlobInfo;
use crate::chunk::{BlobChunkInfo, BlobIoChunk};
use crate::error::StorageError;
use crate::io_range::BlobIoRange;
use crate::io_vec::{BlobIoDesc, BlobIoVec};
use fuse_backend_rs::file_buf::FileVolatileSlice;
use std::sync::Arc;
use vstd::prelude::*;

verus! {

/// A buffer of a reply that the transport provides,
/// `fuse_backend_rs::file_buf::FileVolatileSlice`: a range of memory that
/// others may write at any time.
#[verifier::external_type_specification]
#[verifier::external_body]
pub struct ExFileVolatileSlice<'a>(FileVolatileSlice<'a>);

/// A request to warm the cache for the range `[offset, offset + len)` of the
/// uncompressed data of blob `blob_id`.
pub struct BlobPrefetchRequest {
    /// The ID of the blob to prefetch data for.
    pub blob_id: String,
    /// Offset into the blob to prefetch data.
    pub offset: u64,
    /// Size of data to prefetch.
    pub len: u64,
}

/// The readiness of the chunks of one blob: whether a chunk is in local storage.
pub trait ChunkMap<C: BlobChunkInfo> {
    /// Whether the data of the chunk with the identifier `id` is in local
    /// storage for good. A chunk that is ready stays ready, so this holds of
    /// a chunk from the moment at which the map first reports it as ready.
    spec fn present(&self, id: u32) -> bool;

    /// Whether `chunk` is ready. `Ok(true)` says that the data of the chunk
    /// is in local storage; any other answer says that it has to be fetched.
    fn is_ready(&self, chunk: &BlobIoChunk<C>) -> (r: Result<bool, StorageError>)
        ensures
            r == Ok::<bool, StorageError>(true) ==> self.present(chunk@.id),
    ;
}

/// Direct access to the uncompressed cache file of a blob.
///
/// A reader first asks whether all data is ready; if not, it fetches the range
/// that it needs; then it reads the file at `base_offset()` plus the offset
/// within the blob.
pub trait BlobObject<C: BlobChunkInfo> {
    /// The offset at which the blob starts in the cache file.
    fn base_offset(&self) -> u64;

    /// Whether all data of the blob is in the cache file.
    fn is_all_data_ready(&self) -> bool;

    /// Fetch the range `[offset, offset + size)` of the compressed blob.
    fn fetch_range_compressed(&self, offset: u64, size: u64) -> Result<usize, StorageError>;

    /// Make the range `[offset, offset + size)` of the uncompressed blob ready.
    fn fetch_range_uncompressed(&self, offset: u64, size: u64) -> Result<usize, StorageError>;

    /// Fetch the chunks of `range`.
    fn fetch_chunks(&self, range: &BlobIoRange<C>) -> Result<usize, StorageError>;
}

/// The mathematical model of a [`BlobCache`]: what never changes of it.
pub struct BlobCacheView {
    /// The identifier of the blob that the cache serves.
    pub blob_id: String,
    /// Whether the cache is backed by a file that callers may read themselves.
    pub direct_access: bool,
}

/// The cache of one blob.
pub trait BlobCache: Sized {
    /// The chunk descriptors that the cache is asked about.
    type Chunk: BlobChunkInfo;

    /// The readiness map of the cache.
    type Map: ChunkMap<Self::Chunk>;

    /// The handle that the cache gives out for direct access.
    type Object: BlobObject<Self::Chunk>;

    /// What never changes of the cache.
    spec fn view(&self) -> BlobCacheView;

    /// The identifier of the blob that the cache serves.
    fn blob_id(&self) -> (r: &str)
        ensures
            r@ == self@.blob_id@,
    ;

    /// Whether the data of the chunk with the identifier `id` is in the local
    /// storage of the cache for good: what the readiness map of the cache
    /// says of it.
    spec fn chunk_present(&self, id: u32) -> bool;

    /// The readiness map of the cache.
    fn get_chunk_map(&self) -> (r: &Self::Map)
        ensures
            forall|id: u32| #[trigger] r.present(id) ==> self.chunk_present(id),
    ;

    /// Serve the descriptors of `iovec` in their order into `buffers`, and
    /// report the number of bytes written. A read that succeeds has written
    /// all bytes that the list asks for.
    fn read(&self, iovec: &mut BlobIoVec<Self::Chunk>, buffers: &[FileVolatileSlice]) -> (r: Result<
        usize,
        StorageError,
    >)
        ensures
            r matches Ok(n) ==> n == old(iovec).bi_size,
    ;

    /// Schedule the warming of the ranges of `prefetches` and of the chunks of
    /// `bios`. `blob_cache` is this cache, shared with the workers.
    fn prefetch(
        &self,
        blob_cache: Arc<Self>,
        prefetches: &[BlobPrefetchRequest],
        bios: &[BlobIoDesc<Self::Chunk>],
    ) -> Result<usize, StorageError>;

    /// Start the prefetch workers of the cache.
    fn start_prefetch(&self) -> Result<(), StorageError>;

    /// Stop the prefetch workers of the cache.
    fn stop_prefetch(&self) -> Result<(), StorageError>;

    /// The handle for direct access, where the cache is backed by a file that
    /// callers may read themselves.
    fn get_blob_object(&self) -> (r: Option<&Self::Object>)
        ensures
            r is Some <==> self@.direct_access,
    ;
}

/// The builder of caches: it sets up the storage backend and the local cache
/// that a configuration asks for, and makes the cache of a blob.
pub trait BlobCacheBuilder {
    /// The configuration of backend and cache.
    type Config;

    /// The caches that the builder makes.
    type Cache: BlobCache;

    /// The text that [`BlobCacheBuilder::fingerprint`] gives for `config`.
    spec fn spec_fingerprint(&self, config: &Self::Config) -> String;

    /// The text that stands for `config`: two configurations with the same
    /// type and settings of backend and cache have the same text, and share
    /// their caches.
    fn fingerprint(&self, config: &Self::Config) -> (r: String)
        ensures
            r@ == self.spec_fingerprint(config)@,
    ;

    /// A new cache for the blob `blob_info` under `config`.
    fn build(&self, config: &Arc<Self::Config>, blob_info: &Arc<BlobInfo>) -> (r: Result<
        Arc<Self::Cache>,
        StorageError,
    >)
        ensures
            r matches Ok(cache) ==> cache.view().blob_id@ == blob_info@.blob_id,
    ;
}

} // verus!
