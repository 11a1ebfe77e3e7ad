//! Chunk descriptors: where a chunk lies in the compressed and in the
//! uncompressed blob.

use crate::error::StorageError;
use crate::features::BlobChunkFlags;
use nydus_utils::digest::RafsDigest;
use std::sync::Arc;
use vstd::prelude::*;

verus! {

/// The content digest of a chunk, `nydus_utils::digest::RafsDigest`. The device
/// layer hands it on and never looks inside.
#[verifier::external_type_specification]
#[verifier::external_body]
pub struct ExRafsDigest(RafsDigest);

/// The addressing data of a chunk: the mathematical model of a [`BlobChunkInfo`].
pub struct ChunkLayout {
    /// Digest of the content of the chunk.
    pub digest: RafsDigest,
    /// Identifier of the chunk, unique within its blob.
    pub id: u32,
    /// Index of the blob that holds the chunk.
    pub blob_index: u32,
    /// Offset of the chunk in the compressed blob.
    pub compress_offset: u64,
    /// Size of the chunk in the compressed blob.
    pub compress_size: u32,
    /// Offset of the chunk in the uncompressed blob.
    pub uncompress_offset: u64,
    /// Size of the chunk in the uncompressed blob.
    pub uncompress_size: u32,
    /// Whether the chunk is stored compressed.
    pub compressed: bool,
    /// Whether the chunk is a hole, which reads as zeros.
    pub hole: bool,
}

impl ChunkLayout {
    /// The position just behind the chunk in the compressed blob.
    pub open spec fn compress_end(&self) -> int {
        self.compress_offset + self.compress_size
    }

    /// The position just behind the chunk in the uncompressed blob.
    pub open spec fn uncompress_end(&self) -> int {
        self.uncompress_offset + self.uncompress_size
    }
}

/// Basic information about a chunk, immutable once the metadata is loaded.
///
/// The accessors of an implementation return the fields of its [`ChunkLayout`].
pub trait BlobChunkInfo {
    /// The addressing data that the accessors report.
    spec fn view(&self) -> ChunkLayout;

    /// The message digest of the chunk, which identifies its content.
    fn chunk_id(&self) -> (r: &RafsDigest)
        ensures
            *r == self@.digest,
    ;

    /// The identifier of the chunk within its blob.
    fn id(&self) -> (r: u32)
        ensures
            r == self@.id,
    ;

    /// The index of the blob that holds the chunk.
    fn blob_index(&self) -> (r: u32)
        ensures
            r == self@.blob_index,
    ;

    /// The offset of the chunk in the compressed blob.
    fn compress_offset(&self) -> (r: u64)
        ensures
            r == self@.compress_offset,
    ;

    /// The size of the chunk in the compressed blob.
    fn compress_size(&self) -> (r: u32)
        ensures
            r == self@.compress_size,
    ;

    /// The offset of the chunk in the uncompressed blob.
    fn uncompress_offset(&self) -> (r: u64)
        ensures
            r == self@.uncompress_offset,
    ;

    /// The size of the chunk in the uncompressed blob.
    fn uncompress_size(&self) -> (r: u32)
        ensures
            r == self@.uncompress_size,
    ;

    /// Whether the chunk is stored compressed. A chunk that compression would
    /// enlarge is stored as it is.
    fn is_compressed(&self) -> (r: bool)
        ensures
            r == self@.compressed,
    ;

    /// Whether the chunk is a hole.
    fn is_hole(&self) -> (r: bool)
        ensures
            r == self@.hole,
    ;
}

/// Extended information about a chunk of a v5 image, in which filesystem and
/// blob metadata are fused.
pub trait BlobV5ChunkInfo: BlobChunkInfo {
    /// The index of the chunk in the chunk array of the metadata.
    fn index(&self) -> u32;

    /// The offset of the chunk within the file that it belongs to.
    fn file_offset(&self) -> u64;

    /// The flags of the chunk.
    fn flags(&self) -> BlobChunkFlags;
}

/// A chunk handle of a blob IO descriptor: a shared chunk descriptor, marked by
/// whether it was registered with its extended (v5) information.
pub enum BlobIoChunk<C> {
    /// A chunk known by its basic information.
    Base(Arc<C>),
    /// A chunk known with its v5 information.
    V5(Arc<C>),
}

/// `Arc::clone` of std: the new handle points to the same value.
#[verifier::external_body]
pub(crate) fn share<T>(a: &Arc<T>) -> (r: Arc<T>)
    ensures
        r == *a,
{
    Arc::clone(a)
}

impl<C> BlobIoChunk<C> {
    /// The shared descriptor behind the handle.
    pub open spec fn inner(&self) -> Arc<C> {
        match self {
            BlobIoChunk::Base(c) => *c,
            BlobIoChunk::V5(c) => *c,
        }
    }

    /// The chunk descriptor, whichever way the chunk was registered.
    pub fn as_base(&self) -> (r: &C)
        ensures
            *r == *self.inner(),
    {
        match self {
            BlobIoChunk::Base(c) => &**c,
            BlobIoChunk::V5(c) => &**c,
        }
    }

}

impl<C: BlobV5ChunkInfo> BlobIoChunk<C> {
    /// The chunk descriptor with its v5 information; `InvalidInput` for a chunk
    /// that was not registered with it.
    pub fn as_v5(&self) -> (r: Result<&Arc<C>, StorageError>)
        ensures
            self is V5 ==> r == Ok::<&Arc<C>, StorageError>(&self.inner()),
            self is Base ==> r == Err::<&Arc<C>, StorageError>(StorageError::InvalidInput),
    {
        match self {
            BlobIoChunk::V5(c) => Ok(c),
            BlobIoChunk::Base(_) => Err(StorageError::InvalidInput),
        }
    }
}

impl<C> Clone for BlobIoChunk<C> {
    fn clone(&self) -> (r: Self)
        ensures
            r == *self,
    {
        match self {
            BlobIoChunk::Base(c) => BlobIoChunk::Base(share(c)),
            BlobIoChunk::V5(c) => BlobIoChunk::V5(share(c)),
        }
    }
}

impl<C: BlobChunkInfo> BlobChunkInfo for BlobIoChunk<C> {
    open spec fn view(&self) -> ChunkLayout {
        self.inner().view()
    }

    fn chunk_id(&self) -> (r: &RafsDigest) {
        self.as_base().chunk_id()
    }

    fn id(&self) -> (r: u32) {
        self.as_base().id()
    }

    fn blob_index(&self) -> (r: u32) {
        self.as_base().blob_index()
    }

    fn compress_offset(&self) -> (r: u64) {
        self.as_base().compress_offset()
    }

    fn compress_size(&self) -> (r: u32) {
        self.as_base().compress_size()
    }

    fn uncompress_offset(&self) -> (r: u64) {
        self.as_base().uncompress_offset()
    }

    fn uncompress_size(&self) -> (r: u32) {
        self.as_base().uncompress_size()
    }

    fn is_compressed(&self) -> (r: bool) {
        self.as_base().is_compressed()
    }

    fn is_hole(&self) -> (r: bool) {
        self.as_base().is_hole()
    }
}

impl<C> From<Arc<C>> for BlobIoChunk<C> {
    fn from(v: Arc<C>) -> (r: Self) {
        BlobIoChunk::Base(v)
    }
}

impl<C> vstd::std_specs::convert::FromSpecImpl<Arc<C>> for BlobIoChunk<C> {
    open spec fn obeys_from_spec() -> bool {
        true
    }

    open spec fn from_spec(v: Arc<C>) -> Self {
        BlobIoChunk::Base(v)
    }
}

} // verus!
