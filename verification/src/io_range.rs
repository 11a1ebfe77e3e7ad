//! Segments, tags and merged ranges of blob IO requests.

use crate::blob_info::BlobInfo;
use crate::chunk::{share, BlobChunkInfo, BlobIoChunk};
use crate::error::StorageError;
use crate::io_vec::BlobIoDesc;
use std::sync::Arc;
use vstd::prelude::*;

verus! {

/// A continuous range within the uncompressed data of one chunk.
#[derive(Debug)]
pub struct BlobIoSegment {
    /// Start position of the range within the chunk.
    pub offset: u32,
    /// Size of the range within the chunk.
    pub len: u32,
}

impl BlobIoSegment {
    /// The position just behind the last byte of the segment.
    pub open spec fn end(&self) -> int {
        self.offset + self.len
    }

    /// Create a segment that starts at `offset` and covers `len` bytes.
    pub fn new(offset: u32, len: u32) -> (r: Self)
        ensures
            r.offset == offset,
            r.len == len,
    {
        Self { offset, len }
    }

    /// Extend the segment by `len` bytes that start at `offset`, which must be
    /// the position where the segment ends.
    pub fn append(&mut self, offset: u32, len: u32)
        requires
            old(self).end() == offset,
            offset + len <= u32::MAX,
        ensures
            final(self).offset == old(self).offset,
            final(self).len == old(self).len + len,
            final(self).end() == offset + len,
    {
        self.len += len;
    }

    /// Whether the segment sits at the start of the chunk and covers nothing.
    ///
    /// A segment of length zero at a non-zero offset is not reported as empty.
    pub fn is_empty(&self) -> (r: bool)
        ensures
            r <==> self.offset == 0 && self.len == 0,
    {
        self.offset == 0 && self.len == 0
    }
}

impl Clone for BlobIoSegment {
    fn clone(&self) -> (r: Self)
        ensures
            r == *self,
    {
        Self { offset: self.offset, len: self.len }
    }
}

impl Default for BlobIoSegment {
    fn default() -> (r: Self)
        ensures
            r.offset == 0,
            r.len == 0,
    {
        Self { offset: 0, len: 0 }
    }
}

/// What a chunk in a merged request is fetched for.
#[derive(Debug)]
pub enum BlobIoTag {
    /// The chunk serves a user request, which needs the given part of it.
    User(BlobIoSegment),
    /// The chunk is fetched for the storage layer itself; the value is the
    /// chunk's offset in the compressed blob.
    Internal(u64),
}

impl BlobIoTag {
    /// Whether the tag belongs to a user request.
    pub fn is_user_io(&self) -> (r: bool)
        ensures
            r <==> self is User,
    {
        match self {
            BlobIoTag::User(_) => true,
            BlobIoTag::Internal(_) => false,
        }
    }
}

impl Clone for BlobIoTag {
    fn clone(&self) -> (r: Self)
        ensures
            r == *self,
    {
        match self {
            BlobIoTag::User(s) => BlobIoTag::User(s.clone()),
            BlobIoTag::Internal(o) => BlobIoTag::Internal(*o),
        }
    }
}

/// Whether each chunk of `chunks` but the first starts in the compressed blob
/// where the chunk before it ends.
pub open spec fn adjacent<C: BlobChunkInfo>(chunks: Seq<BlobIoChunk<C>>) -> bool {
    forall|i: int|
        0 <= i && i + 1 < chunks.len() ==> (#[trigger] chunks[i + 1])@.compress_offset
            == chunks[i]@.compress_end()
}

/// The number of bytes that `chunks` take in the compressed blob.
pub open spec fn compressed_len<C: BlobChunkInfo>(chunks: Seq<BlobIoChunk<C>>) -> int
    decreases chunks.len(),
{
    if chunks.len() == 0 {
        0
    } else {
        compressed_len(chunks.drop_last()) + chunks.last()@.compress_size
    }
}

/// Several blob IOs on chunks that follow each other in the compressed blob,
/// merged into one request to the storage backend.
///
/// A remote backend serves few requests per second but has bandwidth to spare,
/// so one larger request is cheaper than several small ones.
pub struct BlobIoRange<C> {
    /// The blob that the request reads.
    pub blob_info: Arc<BlobInfo>,
    /// Offset of the request in the compressed blob.
    pub blob_offset: u64,
    /// Size of the request in the compressed blob.
    pub blob_size: u64,
    /// The chunks that the request covers, in the order of their offsets.
    pub chunks: Vec<BlobIoChunk<C>>,
    /// What each chunk is fetched for, in the order of `chunks`.
    pub tags: Vec<BlobIoTag>,
}

impl<C: BlobChunkInfo> BlobIoRange<C> {
    /// The position just behind the request in the compressed blob.
    pub open spec fn end(&self) -> int {
        self.blob_offset + self.blob_size
    }

    /// The invariant of a merged request: it has a tag for each chunk, its
    /// chunks follow each other without a gap, and it starts where the first
    /// chunk starts and ends where the last one ends.
    pub open spec fn wf(&self) -> bool {
        &&& self.chunks@.len() > 0
        &&& self.tags@.len() == self.chunks@.len()
        &&& adjacent(self.chunks@)
        &&& self.blob_offset == self.chunks@[0]@.compress_offset
        &&& self.end() == self.chunks@.last()@.compress_end()
        &&& self.end() <= u64::MAX
    }

    /// What [`BlobIoRange::validate`] checks: the request starts inside the
    /// uncompressed size of the blob and ends within it, it has a tag for each
    /// chunk, and the identifiers of its chunks strictly increase.
    pub open spec fn valid(&self) -> bool {
        &&& self.blob_offset < self.blob_info@.uncompressed_size
        &&& self.end() <= self.blob_info@.uncompressed_size
        &&& self.chunks@.len() == self.tags@.len()
        &&& forall|i: int|
            0 <= i && i + 1 < self.chunks@.len() ==> self.chunks@[i]@.id < (
            #[trigger] self.chunks@[i + 1])@.id
    }

    /// The tag for the chunk of `bio`: the range that the user reads, with its
    /// size kept in 32 bits, or the compressed offset of the chunk for an IO
    /// of the storage layer.
    pub open spec fn spec_tag_from_desc(bio: &BlobIoDesc<C>) -> BlobIoTag {
        if bio.user_io {
            BlobIoTag::User(BlobIoSegment { offset: bio.offset, len: bio.size as u32 })
        } else {
            BlobIoTag::Internal(bio.chunkinfo@.compress_offset)
        }
    }

    /// Create a request for the chunk of `bio`, with room for `capacity`
    /// chunks. The chunk has to end within the 64-bit offset range.
    pub fn new(bio: &BlobIoDesc<C>, capacity: usize) -> (r: Self)
        requires
            bio.chunkinfo@.compress_end() <= u64::MAX,
        ensures
            r.blob_info == bio.blob,
            r.blob_offset == bio.chunkinfo@.compress_offset,
            r.blob_size == bio.chunkinfo@.compress_size,
            r.chunks@ == seq![bio.chunkinfo],
            r.tags@ == seq![Self::spec_tag_from_desc(bio)],
            r.wf(),
    {
        let blob_size = bio.chunkinfo.compress_size() as u64;
        let blob_offset = bio.chunkinfo.compress_offset();
        let mut chunks = Vec::with_capacity(capacity);
        let mut tags = Vec::with_capacity(capacity);
        tags.push(Self::tag_from_desc(bio));
        chunks.push(bio.chunkinfo.clone());
        BlobIoRange { blob_info: share(&bio.blob), blob_offset, blob_size, chunks, tags }
    }

    /// Add the chunk of `bio` to the request. The chunk has to start where the
    /// request ends, and to end within the 64-bit offset range.
    pub fn merge(&mut self, bio: &BlobIoDesc<C>)
        requires
            old(self).end() == bio.chunkinfo@.compress_offset,
            bio.chunkinfo@.compress_end() <= u64::MAX,
        ensures
            final(self).blob_info == old(self).blob_info,
            final(self).blob_offset == old(self).blob_offset,
            final(self).blob_size == old(self).blob_size + bio.chunkinfo@.compress_size,
            final(self).chunks@ == old(self).chunks@.push(bio.chunkinfo),
            final(self).tags@ == old(self).tags@.push(Self::spec_tag_from_desc(bio)),
            old(self).wf() ==> final(self).wf(),
    {
        self.tags.push(Self::tag_from_desc(bio));
        self.chunks.push(bio.chunkinfo.clone());
        self.blob_size += bio.chunkinfo.compress_size() as u64;
        proof {
            if old(self).wf() {
                let before = old(self).chunks@;
                let after = self.chunks@;
                assert forall|i: int| 0 <= i && i + 1 < after.len() implies (#[trigger] after[i
                    + 1])@.compress_offset == after[i]@.compress_end() by {
                    if i + 1 < before.len() {
                        assert(after[i + 1] == before[i + 1]);
                        assert(after[i] == before[i]);
                    } else {
                        assert(after[i] == before.last());
                    }
                }
                assert(after[0] == before[0]);
            }
        }
    }

    /// Check the request against its blob: see [`BlobIoRange::valid`].
    pub fn validate(&self) -> (r: bool)
        ensures
            r <==> self.valid(),
    {
        let blob_end = self.blob_info.uncompressed_size();
        if self.blob_offset >= blob_end || self.blob_size > blob_end {
            return false;
        }
        match self.blob_offset.checked_add(self.blob_size) {
            None => {
                return false;
            },
            Some(end) => {
                if end > blob_end {
                    return false;
                }
            },
        }
        if self.chunks.len() != self.tags.len() {
            return false;
        }
        if self.chunks.len() > 1 {
            let mut idx: usize = 1;
            while idx < self.chunks.len()
                invariant
                    1 <= idx <= self.chunks@.len(),
                    forall|i: int|
                        0 <= i && i + 1 < idx ==> self.chunks@[i]@.id < (
                        #[trigger] self.chunks@[i + 1])@.id,
                decreases self.chunks@.len() - idx,
            {
                if self.chunks[idx - 1].id() >= self.chunks[idx].id() {
                    assert(!(self.chunks@[idx - 1]@.id < self.chunks@[(idx - 1) + 1]@.id));
                    return false;
                }
                idx += 1;
            }
        }
        true
    }

    /// Where the data of each chunk lies in the bytes that the backend
    /// returned for the request: the offset of the chunk from the start of
    /// the request, and its compressed size. `fetched` is the number of bytes
    /// that the backend returned; fewer bytes than the request asks for are a
    /// short read, which is reported as `Io`.
    pub fn chunk_spans(&self, fetched: usize) -> (r: Result<Vec<(usize, usize)>, StorageError>)
        requires
            self.wf(),
        ensures
            fetched < self.blob_size ==> r == Err::<Vec<(usize, usize)>, StorageError>(
                StorageError::Io,
            ),
            fetched >= self.blob_size ==> r is Ok && r->Ok_0@.len() == self.chunks@.len()
                && forall|i: int|
                0 <= i < self.chunks@.len() ==> {
                    let span = #[trigger] r->Ok_0@[i];
                    &&& span.0 == compressed_len(self.chunks@.take(i))
                    &&& span.1 == self.chunks@[i]@.compress_size
                    &&& span.0 + span.1 <= self.blob_size
                },
    {
        if (fetched as u64) < self.blob_size {
            return Err(StorageError::Io);
        }
        let mut spans: Vec<(usize, usize)> = Vec::with_capacity(self.chunks.len());
        let mut n: usize = 0;
        while n < self.chunks.len()
            invariant
                n <= self.chunks@.len(),
                self.wf(),
                fetched >= self.blob_size,
                spans@.len() == n,
                forall|i: int|
                    0 <= i < n ==> {
                        let span = #[trigger] spans@[i];
                        &&& span.0 == compressed_len(self.chunks@.take(i))
                        &&& span.1 == self.chunks@[i]@.compress_size
                        &&& span.0 + span.1 <= self.blob_size
                    },
            decreases self.chunks@.len() - n,
        {
            proof {
                self.lemma_chunk_offset(n as int);
                self.lemma_chunk_within(n as int);
            }
            let start = (self.chunks[n].compress_offset() - self.blob_offset) as usize;
            let size = self.chunks[n].compress_size() as usize;
            spans.push((start, size));
            n += 1;
        }
        Ok(spans)
    }

    /// The tag for the chunk of `bio`: see [`BlobIoRange::spec_tag_from_desc`].
    pub fn tag_from_desc(bio: &BlobIoDesc<C>) -> (r: BlobIoTag)
        ensures
            r == Self::spec_tag_from_desc(bio),
    {
        if bio.user_io {
            BlobIoTag::User(BlobIoSegment::new(bio.offset, #[verifier::truncate]
                (bio.size as u32)))
        } else {
            BlobIoTag::Internal(bio.chunkinfo.compress_offset())
        }
    }

    /// A well-formed request ends where its last chunk ends.
    pub proof fn lemma_ends_with_last(&self)
        requires
            self.wf(),
        ensures
            self.end() == self.chunks@.last()@.compress_end(),
    {
    }

    /// In a well-formed request, the chunk at `i` starts behind the chunks
    /// before it, counted from the start of the request.
    pub proof fn lemma_chunk_offset(&self, i: int)
        requires
            self.wf(),
            0 <= i < self.chunks@.len(),
        ensures
            self.chunks@[i]@.compress_offset == self.blob_offset + compressed_len(
                self.chunks@.take(i),
            ),
        decreases i,
    {
        let chunks = self.chunks@;
        if i == 0 {
            assert(chunks.take(0).len() == 0);
        } else {
            self.lemma_chunk_offset(i - 1);
            let head = chunks.take(i);
            assert(head.drop_last() == chunks.take(i - 1));
            assert(head.last() == chunks[i - 1]);
            assert(chunks[(i - 1) + 1]@.compress_offset == chunks[i - 1]@.compress_end());
        }
    }

    /// In a well-formed request, every chunk lies within the request.
    pub proof fn lemma_chunk_within(&self, i: int)
        requires
            self.wf(),
            0 <= i < self.chunks@.len(),
        ensures
            self.blob_offset <= self.chunks@[i]@.compress_offset,
            self.chunks@[i]@.compress_end() <= self.end(),
        decreases self.chunks@.len() - i,
    {
        self.lemma_chunk_offset(i);
        self.lemma_compressed_len_positive(i);
        if i + 1 < self.chunks@.len() {
            self.lemma_chunk_within(i + 1);
            assert(self.chunks@[i + 1]@.compress_offset == self.chunks@[i]@.compress_end());
        }
    }

    /// The chunks before a chunk take no negative number of bytes.
    proof fn lemma_compressed_len_positive(&self, i: int)
        requires
            0 <= i <= self.chunks@.len(),
        ensures
            compressed_len(self.chunks@.take(i)) >= 0,
        decreases i,
    {
        if i > 0 {
            self.lemma_compressed_len_positive(i - 1);
            assert(self.chunks@.take(i).drop_last() == self.chunks@.take(i - 1));
        }
    }

    /// The size of a well-formed request is the number of bytes that its
    /// chunks take in the compressed blob.
    pub proof fn lemma_size_is_sum(&self)
        requires
            self.wf(),
        ensures
            self.blob_size == compressed_len(self.chunks@),
    {
        let chunks = self.chunks@;
        let n = chunks.len() as int;
        self.lemma_chunk_offset(n - 1);
        assert(chunks.drop_last() == chunks.take(n - 1));
    }
}

impl<C> Clone for BlobIoRange<C> {
    fn clone(&self) -> (r: Self)
        ensures
            r.blob_info == self.blob_info,
            r.blob_offset == self.blob_offset,
            r.blob_size == self.blob_size,
            r.chunks@ == self.chunks@,
            r.tags@ == self.tags@,
    {
        let mut chunks: Vec<BlobIoChunk<C>> = Vec::with_capacity(self.chunks.len());
        let mut i: usize = 0;
        while i < self.chunks.len()
            invariant
                i <= self.chunks@.len(),
                chunks@ == self.chunks@.take(i as int),
            decreases self.chunks@.len() - i,
        {
            chunks.push(self.chunks[i].clone());
            assert(self.chunks@.take(i + 1) == self.chunks@.take(i as int).push(self.chunks@[
                i as int
            ]));
            i += 1;
        }
        assert(self.chunks@.take(self.chunks@.len() as int) == self.chunks@);
        let mut tags: Vec<BlobIoTag> = Vec::with_capacity(self.tags.len());
        let mut j: usize = 0;
        while j < self.tags.len()
            invariant
                j <= self.tags@.len(),
                tags@ == self.tags@.take(j as int),
            decreases self.tags@.len() - j,
        {
            tags.push(self.tags[j].clone());
            assert(self.tags@.take(j + 1) == self.tags@.take(j as int).push(self.tags@[j as int]));
            j += 1;
        }
        assert(self.tags@.take(self.tags@.len() as int) == self.tags@);
        BlobIoRange {
            blob_info: share(&self.blob_info),
            blob_offset: self.blob_offset,
            blob_size: self.blob_size,
            chunks,
            tags,
        }
    }
}

impl<C> Default for BlobIoRange<C> {
    fn default() -> (r: Self)
        ensures
            r.blob_offset == 0,
            r.blob_size == 0,
            r.chunks@.len() == 0,
            r.tags@.len() == 0,
    {
        BlobIoRange {
            blob_info: Arc::new(BlobInfo::default()),
            blob_offset: 0,
            blob_size: 0,
            chunks: Vec::new(),
            tags: Vec::new(),
        }
    }
}

} // verus!
