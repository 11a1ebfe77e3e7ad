//! Blob IO descriptors and scatter/gather lists of them.

use crate::blob_info::BlobInfo;
use crate::chunk::{share, BlobChunkInfo, BlobIoChunk};
use std::sync::Arc;
use vstd::prelude::*;

verus! {

/// A blob IO descriptor: one continuous range within one chunk.
pub struct BlobIoDesc<C> {
    /// The blob that the IO operation reads.
    pub blob: Arc<BlobInfo>,
    /// The chunk that the IO operation reads.
    pub chunkinfo: BlobIoChunk<C>,
    /// Offset of the range from the start of the uncompressed chunk.
    pub offset: u32,
    /// Size of the range.
    pub size: usize,
    /// Whether a user started the IO; otherwise the storage layer did, for
    /// instance to read ahead. Lower layers may order their work by it.
    pub user_io: bool,
}

impl<C: BlobChunkInfo> BlobIoDesc<C> {
    /// The index of the blob that the descriptor reads.
    pub open spec fn blob_index(&self) -> u32 {
        self.blob@.blob_index
    }

    /// The position just behind the range within the uncompressed chunk.
    pub open spec fn end(&self) -> int {
        self.offset + self.size
    }

    /// Whether the range lies within the uncompressed chunk.
    pub open spec fn wf(&self) -> bool {
        self.end() <= self.chunkinfo@.uncompress_size
    }

    /// Create a descriptor for `size` bytes at `offset` of the chunk. The range
    /// has to lie within the uncompressed chunk.
    pub fn new(
        blob: Arc<BlobInfo>,
        chunkinfo: BlobIoChunk<C>,
        offset: u32,
        size: usize,
        user_io: bool,
    ) -> (r: Self)
        requires
            offset + size <= chunkinfo@.uncompress_size,
        ensures
            r == (BlobIoDesc { blob, chunkinfo, offset, size, user_io }),
            r.wf(),
    {
        BlobIoDesc { blob, chunkinfo, offset, size, user_io }
    }

    /// Whether the chunk of this descriptor follows the chunk of `prev` in the
    /// compressed data of the same blob without a gap.
    pub fn is_continuous(&self, prev: &BlobIoDesc<C>) -> (r: bool)
        ensures
            r <==> prev.chunkinfo@.compress_end() == self.chunkinfo@.compress_offset
                && self.blob_index() == prev.blob_index(),
    {
        let offset = self.chunkinfo.compress_offset();
        let prev_size = prev.chunkinfo.compress_size() as u64;
        match prev.chunkinfo.compress_offset().checked_add(prev_size) {
            Some(prev_end) => prev_end == offset && self.blob.blob_index()
                == prev.blob.blob_index(),
            None => false,
        }
    }
}

impl<C> Clone for BlobIoDesc<C> {
    fn clone(&self) -> (r: Self)
        ensures
            r == *self,
    {
        BlobIoDesc {
            blob: share(&self.blob),
            chunkinfo: self.chunkinfo.clone(),
            offset: self.offset,
            size: self.size,
            user_io: self.user_io,
        }
    }
}

/// Whether all descriptors of `descs` read the same blob.
pub open spec fn single_blob<C: BlobChunkInfo>(descs: Seq<BlobIoDesc<C>>) -> bool {
    forall|i: int, j: int|
        0 <= i < descs.len() && 0 <= j < descs.len() ==> descs[i].blob_index()
            == descs[j].blob_index()
}

/// The number of bytes that the descriptors of `descs` ask for together.
pub open spec fn total_size<C: BlobChunkInfo>(descs: Seq<BlobIoDesc<C>>) -> int
    decreases descs.len(),
{
    if descs.len() == 0 {
        0
    } else {
        total_size(descs.drop_last()) + descs.last().size
    }
}

/// Two lists of descriptors ask together for what each asks for.
pub proof fn lemma_total_size_append<C: BlobChunkInfo>(
    a: Seq<BlobIoDesc<C>>,
    b: Seq<BlobIoDesc<C>>,
)
    ensures
        total_size(a + b) == total_size(a) + total_size(b),
    decreases b.len(),
{
    if b.len() == 0 {
        assert(a + b == a);
    } else {
        lemma_total_size_append(a, b.drop_last());
        assert((a + b).drop_last() == a + b.drop_last());
        assert((a + b).last() == b.last());
    }
}

/// A scatter/gather list for a blob IO operation: descriptors that are served
/// one after the other, all against one blob.
pub struct BlobIoVec<C> {
    /// Blob IO flags.
    pub bi_flags: u32,
    /// Total size of the blob IOs to be performed.
    pub bi_size: usize,
    /// The blob IOs, in the order in which they are served.
    pub bi_vec: Vec<BlobIoDesc<C>>,
}

impl<C: BlobChunkInfo> BlobIoVec<C> {
    /// Whether all descriptors of the list read the same blob.
    pub open spec fn targets_one_blob(&self) -> bool {
        single_blob(self.bi_vec@)
    }

    /// Whether the size of the list is the number of bytes that its
    /// descriptors ask for.
    pub open spec fn sized(&self) -> bool {
        self.bi_size == total_size(self.bi_vec@)
    }

    /// The index of the blob that the list reads, if it holds a descriptor.
    pub open spec fn target(&self) -> Option<u32> {
        if self.bi_vec@.len() == 0 {
            None
        } else {
            Some(self.bi_vec@[0].blob_index())
        }
    }

    /// Create an empty list.
    pub fn new() -> (r: Self)
        ensures
            r.bi_flags == 0,
            r.bi_size == 0,
            r.bi_vec@ == Seq::<BlobIoDesc<C>>::empty(),
            r.sized(),
    {
        BlobIoVec { bi_flags: 0, bi_size: 0, bi_vec: Vec::new() }
    }

    /// Move the descriptors of `desc` behind those of this list and add up
    /// the sizes.
    pub fn append(&mut self, desc: BlobIoVec<C>)
        requires
            old(self).bi_size + desc.bi_size <= usize::MAX,
        ensures
            final(self).bi_vec@ == old(self).bi_vec@ + desc.bi_vec@,
            final(self).bi_size == old(self).bi_size + desc.bi_size,
            final(self).bi_flags == old(self).bi_flags,
            old(self).sized() && desc.sized() ==> final(self).sized(),
            old(self).targets_one_blob() && desc.targets_one_blob() && (old(self).target() is None
                || desc.target() is None || old(self).target() == desc.target())
                ==> final(self).targets_one_blob(),
    {
        proof {
            lemma_total_size_append(self.bi_vec@, desc.bi_vec@);
            if self.targets_one_blob() && desc.targets_one_blob() && (self.target() is None
                || desc.target() is None || self.target() == desc.target()) {
                Self::lemma_append_keeps_target(self.bi_vec@, desc.bi_vec@);
            }
        }
        let mut desc = desc;
        self.bi_vec.append(&mut desc.bi_vec);
        self.bi_size += desc.bi_size;
    }

    /// Drop all descriptors and set the size to zero.
    pub fn reset(&mut self)
        ensures
            final(self).bi_vec@ == Seq::<BlobIoDesc<C>>::empty(),
            final(self).bi_size == 0,
            final(self).bi_flags == old(self).bi_flags,
            final(self).sized(),
    {
        self.bi_size = 0;
        self.bi_vec.truncate(0);
    }

    /// The blob of the first descriptor; `None` for an empty list.
    pub fn get_target_blob(&self) -> (r: Option<Arc<BlobInfo>>)
        ensures
            self.bi_vec@.len() == 0 ==> r is None,
            self.bi_vec@.len() > 0 ==> r == Some(self.bi_vec@[0].blob),
    {
        if self.bi_vec.is_empty() {
            None
        } else {
            Some(share(&self.bi_vec[0].blob))
        }
    }

    /// The blob index of the first descriptor; `None` for an empty list.
    pub fn get_target_blob_index(&self) -> (r: Option<u32>)
        ensures
            r == self.target(),
    {
        if self.bi_vec.is_empty() {
            None
        } else {
            Some(self.bi_vec[0].blob.blob_index())
        }
    }

    /// Whether the list reads the blob with index `blob_index`.
    pub fn is_target_blob(&self, blob_index: u32) -> (r: bool)
        ensures
            r <==> self.target() == Some(blob_index),
    {
        !self.bi_vec.is_empty() && self.bi_vec[0].blob.blob_index() == blob_index
    }

    /// Whether this list and `desc` read the same blob. Two lists of which one
    /// is empty do not.
    pub fn has_same_blob(&self, desc: &BlobIoVec<C>) -> (r: bool)
        ensures
            r <==> self.target() is Some && self.target() == desc.target(),
    {
        !self.bi_vec.is_empty() && !desc.bi_vec.is_empty() && self.bi_vec[0].blob.blob_index()
            == desc.bi_vec[0].blob.blob_index()
    }

    /// Whether all descriptors of the list read the same blob, which holds of
    /// an empty list.
    pub fn validate(&self) -> (r: bool)
        ensures
            r <==> self.targets_one_blob(),
    {
        if self.bi_vec.len() > 1 {
            let blob_index = self.bi_vec[0].blob.blob_index();
            let mut n: usize = 1;
            while n < self.bi_vec.len()
                invariant
                    1 <= n <= self.bi_vec@.len(),
                    blob_index == self.bi_vec@[0].blob_index(),
                    forall|k: int| 0 <= k < n ==> self.bi_vec@[k].blob_index() == blob_index,
                decreases self.bi_vec@.len() - n,
            {
                if self.bi_vec[n].blob.blob_index() != blob_index {
                    return false;
                }
                n += 1;
            }
        }
        true
    }

    /// Two lists that each read one blob, and that read the same blob unless
    /// one of them is empty, make a list that reads one blob when appended.
    pub proof fn lemma_append_keeps_target(a: Seq<BlobIoDesc<C>>, b: Seq<BlobIoDesc<C>>)
        requires
            single_blob(a),
            single_blob(b),
            a.len() > 0 && b.len() > 0 ==> a[0].blob_index() == b[0].blob_index(),
        ensures
            single_blob(a + b),
    {
        let c = a + b;
        assert forall|i: int, j: int| 0 <= i < c.len() && 0 <= j < c.len() implies c[i].blob_index()
            == c[j].blob_index() by {
            if i < a.len() {
                assert(c[i] == a[i]);
                assert(a[i].blob_index() == a[0].blob_index());
            } else {
                assert(c[i] == b[i - a.len()]);
                assert(b[i - a.len()].blob_index() == b[0].blob_index());
            }
            if j < a.len() {
                assert(c[j] == a[j]);
                assert(a[j].blob_index() == a[0].blob_index());
            } else {
                assert(c[j] == b[j - a.len()]);
                assert(b[j - a.len()].blob_index() == b[0].blob_index());
            }
        }
    }
}

impl<C: BlobChunkInfo> Default for BlobIoVec<C> {
    fn default() -> (r: Self)
        ensures
            r.bi_flags == 0,
            r.bi_size == 0,
            r.bi_vec@ == Seq::<BlobIoDesc<C>>::empty(),
    {
        BlobIoVec::new()
    }
}

} // verus!
