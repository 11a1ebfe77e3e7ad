//! The plan of a read: which chunks come from where, and which requests go
//! to the storage backend.
//!
//! A cache serves the descriptors of a list in their order. A hole reads as
//! zeros, a chunk that is ready is read from local storage, and the others
//! are fetched from the backend. Descriptors to fetch whose chunks follow each
//! other in the compressed blob are merged into one request.

use crate::chunk::{BlobChunkInfo, BlobIoChunk, ChunkLayout};
use crate::error::StorageError;
use crate::io_range::{BlobIoRange, BlobIoTag};
use crate::io_vec::BlobIoDesc;
use vstd::prelude::*;

verus! {

/// Where the data of a chunk comes from.
#[derive(Clone, Copy, Debug, PartialEq, Eq, Structural)]
pub enum ChunkSource {
    /// The chunk is a hole: it reads as zeros, and nothing is fetched.
    Hole,
    /// The chunk is ready in local storage.
    Cache,
    /// The chunk has to be fetched from the storage backend.
    Backend,
}

/// Where the data for `desc` comes from, given whether its chunk is ready.
pub open spec fn source_of<C: BlobChunkInfo>(desc: BlobIoDesc<C>, ready: bool) -> ChunkSource {
    if desc.chunkinfo@.hole {
        ChunkSource::Hole
    } else if ready {
        ChunkSource::Cache
    } else {
        ChunkSource::Backend
    }
}

/// The descriptors of `descs` whose chunks have to be fetched, in their
/// order. `ready` says of each descriptor whether its chunk is ready.
pub open spec fn missing<C: BlobChunkInfo>(descs: Seq<BlobIoDesc<C>>, ready: Seq<bool>) -> Seq<
    BlobIoDesc<C>,
>
    decreases descs.len(),
{
    if descs.len() == 0 || ready.len() != descs.len() {
        Seq::empty()
    } else {
        let before = missing(descs.drop_last(), ready.drop_last());
        if source_of(descs.last(), ready.last()) == ChunkSource::Backend {
            before.push(descs.last())
        } else {
            before
        }
    }
}

/// Whether the chunk of `next` follows the chunk of `prev` in the compressed
/// data of the same blob without a gap.
pub open spec fn follows<C: BlobChunkInfo>(next: BlobIoDesc<C>, prev: BlobIoDesc<C>) -> bool {
    prev.chunkinfo@.compress_end() == next.chunkinfo@.compress_offset && next.blob_index()
        == prev.blob_index()
}

/// The descriptors of `descs` in groups: a descriptor joins the group of the
/// one before it if its chunk follows, and starts a group otherwise.
pub open spec fn groups<C: BlobChunkInfo>(descs: Seq<BlobIoDesc<C>>) -> Seq<Seq<BlobIoDesc<C>>>
    decreases descs.len(),
{
    if descs.len() == 0 {
        Seq::empty()
    } else if descs.len() == 1 {
        seq![descs]
    } else {
        let before = groups(descs.drop_last());
        if follows(descs.last(), descs[descs.len() - 2]) {
            before.drop_last().push(before.last().push(descs.last()))
        } else {
            before.push(seq![descs.last()])
        }
    }
}

/// The chunks of the descriptors of `group`.
pub open spec fn chunks_of<C: BlobChunkInfo>(group: Seq<BlobIoDesc<C>>) -> Seq<BlobIoChunk<C>> {
    Seq::new(group.len(), |i: int| group[i].chunkinfo)
}

/// The tags of the descriptors of `group`.
pub open spec fn tags_of<C: BlobChunkInfo>(group: Seq<BlobIoDesc<C>>) -> Seq<BlobIoTag> {
    Seq::new(group.len(), |i: int| BlobIoRange::<C>::spec_tag_from_desc(&group[i]))
}

/// Whether `range` is the request for the descriptors of `group`: a
/// well-formed request against the blob of the group, with the chunks and the
/// tags of its descriptors.
pub open spec fn describes<C: BlobChunkInfo>(
    range: BlobIoRange<C>,
    group: Seq<BlobIoDesc<C>>,
) -> bool {
    &&& group.len() > 0
    &&& range.wf()
    &&& range.blob_info == group[0].blob
    &&& range.chunks@ == chunks_of(group)
    &&& range.tags@ == tags_of(group)
}

/// Whether `ranges` are the requests for `grouped`, group by group.
pub open spec fn planned<C: BlobChunkInfo>(
    ranges: Seq<BlobIoRange<C>>,
    grouped: Seq<Seq<BlobIoDesc<C>>>,
) -> bool {
    &&& ranges.len() == grouped.len()
    &&& forall|k: int| 0 <= k < ranges.len() ==> describes(#[trigger] ranges[k], grouped[k])
}

/// Whether the chunks of all descriptors of `descs` end within the 64-bit
/// offset range.
pub open spec fn addressable<C: BlobChunkInfo>(descs: Seq<BlobIoDesc<C>>) -> bool {
    forall|i: int|
        0 <= i < descs.len() ==> (#[trigger] descs[i]).chunkinfo@.compress_end() <= u64::MAX
}

/// Where the data for `desc` comes from, given whether its chunk is ready.
pub fn chunk_source<C: BlobChunkInfo>(desc: &BlobIoDesc<C>, ready: bool) -> (r: ChunkSource)
    ensures
        r == source_of(*desc, ready),
{
    if desc.chunkinfo.is_hole() {
        ChunkSource::Hole
    } else if ready {
        ChunkSource::Cache
    } else {
        ChunkSource::Backend
    }
}

/// The last group of a grouping ends with the last descriptor, and no group
/// is empty.
pub proof fn lemma_groups_shape<C: BlobChunkInfo>(descs: Seq<BlobIoDesc<C>>)
    ensures
        descs.len() == 0 <==> groups(descs).len() == 0,
        descs.len() > 0 ==> groups(descs).last().len() > 0 && groups(descs).last().last()
            == descs.last(),
        forall|k: int| 0 <= k < groups(descs).len() ==> (#[trigger] groups(descs)[k]).len() > 0,
    decreases descs.len(),
{
    if descs.len() >= 2 {
        lemma_groups_shape(descs.drop_last());
        let before = groups(descs.drop_last());
        let after = groups(descs);
        assert forall|k: int| 0 <= k < after.len() implies (#[trigger] after[k]).len() > 0 by {
            if k < before.len() - 1 {
                assert(after[k] == before[k]);
            }
        }
    }
}

/// The descriptors to fetch among the first `n` are the first of those to
/// fetch among all.
pub proof fn lemma_missing_prefix<C: BlobChunkInfo>(
    descs: Seq<BlobIoDesc<C>>,
    ready: Seq<bool>,
    n: int,
)
    requires
        descs.len() == ready.len(),
        0 <= n <= descs.len(),
    ensures
        missing(descs.take(n), ready.take(n)).len() <= missing(descs, ready).len(),
        forall|i: int|
            0 <= i < missing(descs.take(n), ready.take(n)).len() ==> missing(descs, ready)[i]
                == #[trigger] missing(descs.take(n), ready.take(n))[i],
    decreases descs.len() - n,
{
    if n == descs.len() {
        assert(descs.take(n) == descs);
        assert(ready.take(n) == ready);
    } else {
        lemma_missing_prefix(descs, ready, n + 1);
        assert(descs.take(n + 1).drop_last() == descs.take(n));
        assert(ready.take(n + 1).drop_last() == ready.take(n));
        let shorter = missing(descs.take(n), ready.take(n));
        let longer = missing(descs.take(n + 1), ready.take(n + 1));
        assert(shorter.len() <= longer.len());
        assert forall|i: int| 0 <= i < shorter.len() implies missing(descs, ready)[i]
            == #[trigger] shorter[i] by {
            assert(longer[i] == shorter[i]);
        }
    }
}

/// Merge the descriptors of `descs` whose chunks have to be fetched into
/// requests to the storage backend. `ready` says of each descriptor whether
/// its chunk is ready. A descriptor extends the request of the descriptor to
/// fetch before it if its chunk follows in the same blob, and starts a
/// request otherwise.
///
/// The plan is rejected with `InvalidInput` where `ready` does not match
/// `descs`, and where a chunk to fetch ends beyond the 64-bit offset range.
pub fn merge_missing<C: BlobChunkInfo>(descs: &[BlobIoDesc<C>], ready: &[bool]) -> (r: Result<
    Vec<BlobIoRange<C>>,
    StorageError,
>)
    ensures
        r matches Ok(ranges) ==> descs@.len() == ready@.len() && addressable(
            missing(descs@, ready@),
        ) && planned(ranges@, groups(missing(descs@, ready@))),
        r matches Err(e) ==> e == StorageError::InvalidInput && (descs@.len() != ready@.len()
            || !addressable(missing(descs@, ready@))),
{
    if descs.len() != ready.len() {
        return Err(StorageError::InvalidInput);
    }
    let mut ranges: Vec<BlobIoRange<C>> = Vec::new();
    let mut current: Option<BlobIoRange<C>> = None;
    let mut prev: usize = 0;
    let mut n: usize = 0;
    while n < descs.len()
        invariant
            n <= descs@.len(),
            descs@.len() == ready@.len(),
            addressable(missing(descs@.take(n as int), ready@.take(n as int))),
            current is None <==> missing(descs@.take(n as int), ready@.take(n as int)).len() == 0,
            current is None ==> ranges@.len() == 0,
            current matches Some(c) ==> {
                let found = missing(descs@.take(n as int), ready@.take(n as int));
                &&& groups(found).len() == ranges@.len() + 1
                &&& forall|k: int|
                    0 <= k < ranges@.len() ==> describes(#[trigger] ranges@[k], groups(found)[k])
                &&& describes(c, groups(found).last())
                &&& prev < n
                &&& descs@[prev as int] == found.last()
            },
        decreases descs@.len() - n,
    {
        let ghost found = missing(descs@.take(n as int), ready@.take(n as int));
        let ghost next = missing(descs@.take(n + 1), ready@.take(n + 1));
        proof {
            assert(descs@.take(n + 1).drop_last() == descs@.take(n as int));
            assert(ready@.take(n + 1).drop_last() == ready@.take(n as int));
            assert(descs@.take(n + 1).last() == descs@[n as int]);
            assert(ready@.take(n + 1).last() == ready@[n as int]);
            lemma_groups_shape(found);
        }
        let desc = &descs[n];
        match chunk_source(desc, ready[n]) {
            ChunkSource::Backend => {
                proof {
                    assert(next == found.push(*desc));
                    assert(next.drop_last() == found);
                    assert(next.last() == *desc);
                }
                if desc.chunkinfo.compress_offset().checked_add(
                    desc.chunkinfo.compress_size() as u64,
                ).is_none() {
                    proof {
                        lemma_missing_prefix(descs@, ready@, n + 1);
                        assert(missing(descs@, ready@)[next.len() - 1] == next[next.len() - 1]);
                    }
                    return Err(StorageError::InvalidInput);
                }
                assert(addressable(next)) by {
                    assert forall|i: int| 0 <= i < next.len() implies (
                    #[trigger] next[i]).chunkinfo@.compress_end() <= u64::MAX by {
                        if i < found.len() {
                            assert(next[i] == found[i]);
                        }
                    }
                }
                current =
                match current {
                    None => {
                        let fresh = BlobIoRange::new(desc, 1);
                        proof {
                            assert(groups(next) == seq![next]);
                            assert(fresh.chunks@ == chunks_of(next));
                            assert(fresh.tags@ == tags_of(next));
                        }
                        Some(fresh)
                    },
                    Some(c) => {
                        let mut c = c;
                        let ghost last_group = groups(found).last();
                        proof {
                            assert(next[next.len() - 2] == found.last());
                            c.lemma_ends_with_last();
                        }
                        if desc.is_continuous(&descs[prev]) {
                            c.merge(desc);
                            proof {
                                let grown = last_group.push(*desc);
                                assert(groups(next) == groups(found).drop_last().push(grown));
                                assert(c.chunks@ == chunks_of(grown));
                                assert(c.tags@ == tags_of(grown));
                                assert(grown[0] == last_group[0]);
                                assert forall|k: int| 0 <= k < ranges@.len() implies describes(
                                    #[trigger] ranges@[k],
                                    groups(next)[k],
                                ) by {
                                    assert(groups(next)[k] == groups(found)[k]);
                                }
                            }
                            Some(c)
                        } else {
                            let ghost before = ranges@;
                            ranges.push(c);
                            let fresh = BlobIoRange::new(desc, 1);
                            proof {
                                assert(groups(next) == groups(found).push(seq![*desc]));
                                assert(fresh.chunks@ == chunks_of(seq![*desc]));
                                assert(fresh.tags@ == tags_of(seq![*desc]));
                                assert forall|k: int| 0 <= k < ranges@.len() implies describes(
                                    #[trigger] ranges@[k],
                                    groups(next)[k],
                                ) by {
                                    assert(groups(next)[k] == groups(found)[k]);
                                    if k < before.len() {
                                        assert(ranges@[k] == before[k]);
                                    }
                                }
                            }
                            Some(fresh)
                        }
                    },
                };
                prev = n;
            },
            _ => {
                proof {
                    assert(next == found);
                }
            },
        }
        n += 1;
    }
    proof {
        assert(descs@.take(descs@.len() as int) == descs@);
        assert(ready@.take(ready@.len() as int) == ready@);
        lemma_groups_shape(missing(descs@, ready@));
    }
    match current {
        Some(c) => {
            let ghost before = ranges@;
            ranges.push(c);
            proof {
                let grouped = groups(missing(descs@, ready@));
                assert forall|k: int| 0 <= k < ranges@.len() implies describes(
                    #[trigger] ranges@[k],
                    grouped[k],
                ) by {
                    if k < before.len() {
                        assert(ranges@[k] == before[k]);
                    }
                }
            }
        },
        None => {},
    }
    Ok(ranges)
}

/// Whether the uncompressed data of a chunk with the layout `layout` shares a
/// byte with the range `[offset, offset + len)` of the uncompressed blob.
pub open spec fn in_range(layout: ChunkLayout, offset: u64, len: u64) -> bool {
    &&& len > 0
    &&& layout.uncompress_size > 0
    &&& layout.uncompress_offset < offset + len
    &&& offset < layout.uncompress_end()
}

/// The identifiers of the chunks of `chunks` that the range
/// `[offset, offset + len)` of the uncompressed blob touches, in their order.
pub open spec fn covering<C: BlobChunkInfo>(chunks: Seq<C>, offset: u64, len: u64) -> Seq<u32>
    decreases chunks.len(),
{
    if chunks.len() == 0 {
        Seq::empty()
    } else if in_range(chunks.last()@, offset, len) {
        covering(chunks.drop_last(), offset, len).push(chunks.last()@.id)
    } else {
        covering(chunks.drop_last(), offset, len)
    }
}

/// The identifiers of the chunks of `chunks` that have to be ready before the
/// range `[offset, offset + len)` of the uncompressed blob can be read.
pub fn chunks_in_range<C: BlobChunkInfo>(chunks: &[C], offset: u64, len: u64) -> (r: Vec<u32>)
    ensures
        r@ == covering(chunks@, offset, len),
{
    let mut ids: Vec<u32> = Vec::new();
    let mut n: usize = 0;
    while n < chunks.len()
        invariant
            n <= chunks@.len(),
            ids@ == covering(chunks@.take(n as int), offset, len),
        decreases chunks@.len() - n,
    {
        proof {
            let head = chunks@.take(n + 1);
            assert(head.drop_last() == chunks@.take(n as int));
            assert(head.last() == chunks@[n as int]);
        }
        let chunk = &chunks[n];
        let start = chunk.uncompress_offset();
        let size = chunk.uncompress_size() as u64;
        // The ends are compared without adding, which could overflow.
        let starts_before_end = len > 0 && (start < offset || start - offset < len);
        let ends_after_start = size > 0 && (offset < start || offset - start < size);
        if starts_before_end && ends_after_start {
            ids.push(chunk.id());
        }
        n += 1;
    }
    assert(chunks@.take(chunks@.len() as int) == chunks@);
    ids
}

/// What holds of all descriptors holds of the descriptors of every group.
pub proof fn lemma_groups_members<C: BlobChunkInfo>(
    descs: Seq<BlobIoDesc<C>>,
    holds: spec_fn(BlobIoDesc<C>) -> bool,
)
    requires
        forall|i: int| 0 <= i < descs.len() ==> holds(#[trigger] descs[i]),
    ensures
        forall|k: int, i: int|
            0 <= k < groups(descs).len() && 0 <= i < groups(descs)[k].len() ==> holds(
                #[trigger] groups(descs)[k][i],
            ),
    decreases descs.len(),
{
    if descs.len() >= 2 {
        lemma_groups_members(descs.drop_last(), holds);
        lemma_groups_shape(descs.drop_last());
        let before = groups(descs.drop_last());
        let after = groups(descs);
        assert(holds(descs[descs.len() - 1]));
        assert forall|k: int, i: int|
            0 <= k < after.len() && 0 <= i < after[k].len() implies holds(
            #[trigger] after[k][i],
        ) by {
            if k < before.len() - 1 {
                assert(after[k] == before[k]);
                assert(holds(before[k][i]));
            } else if k == before.len() - 1 && i < before[k].len() {
                assert(after[k][i] == before[k][i]);
                assert(holds(before[k][i]));
            }
        }
    } else if descs.len() == 1 {
        assert(holds(descs[0]));
    }
}

/// The groups, one behind the other, are the descriptors in their order:
/// grouping drops, adds and moves nothing.
pub proof fn lemma_groups_keep_order<C: BlobChunkInfo>(descs: Seq<BlobIoDesc<C>>)
    ensures
        groups(descs).flatten_alt() == descs,
    decreases descs.len(),
{
    if descs.len() == 0 {
        assert(groups(descs).flatten_alt() =~= descs);
    } else if descs.len() == 1 {
        let only = groups(descs);
        assert(only.drop_last().len() == 0);
        assert(only.drop_last().flatten_alt() =~= Seq::<BlobIoDesc<C>>::empty());
        assert(only.last() == descs);
        assert(only.flatten_alt() == only.drop_last().flatten_alt().add(only.last()));
        assert(only.flatten_alt() =~= descs);
    } else {
        lemma_groups_keep_order(descs.drop_last());
        lemma_groups_shape(descs.drop_last());
        let before = groups(descs.drop_last());
        let after = groups(descs);
        let d = descs.last();
        if follows(d, descs[descs.len() - 2]) {
            assert(after.drop_last() == before.drop_last());
            assert(after.last() == before.last().push(d));
            assert(after.flatten_alt() =~= before.flatten_alt().push(d));
        } else {
            assert(after.drop_last() == before);
            assert(after.flatten_alt() =~= before.flatten_alt().push(d));
        }
        assert(descs.drop_last().push(d) == descs);
    }
}

/// Each group is a run of chunks that follow each other, and a group starts
/// where the chunk does not follow the one before it: no two requests of a
/// plan could have been one.
pub proof fn lemma_groups_are_runs<C: BlobChunkInfo>(descs: Seq<BlobIoDesc<C>>)
    ensures
        forall|k: int, i: int|
            0 <= k < groups(descs).len() && 0 <= i && i + 1 < groups(descs)[k].len() ==> follows(
                #[trigger] groups(descs)[k][i + 1],
                groups(descs)[k][i],
            ),
        forall|k: int|
            0 <= k && k + 1 < groups(descs).len() ==> !follows(
                (#[trigger] groups(descs)[k + 1])[0],
                groups(descs)[k].last(),
            ),
    decreases descs.len(),
{
    if descs.len() >= 2 {
        lemma_groups_are_runs(descs.drop_last());
        lemma_groups_shape(descs.drop_last());
        let before = groups(descs.drop_last());
        let after = groups(descs);
        let d = descs.last();
        assert(before.last().last() == descs[descs.len() - 2]);
        assert forall|k: int, i: int|
            0 <= k < after.len() && 0 <= i && i + 1 < after[k].len() implies follows(
            #[trigger] after[k][i + 1],
            after[k][i],
        ) by {
            if k < before.len() - 1 {
                assert(after[k] == before[k]);
                assert(follows(before[k][i + 1], before[k][i]));
            } else if k == before.len() - 1 && i + 1 < before[k].len() {
                assert(after[k][i + 1] == before[k][i + 1]);
                assert(after[k][i] == before[k][i]);
                assert(follows(before[k][i + 1], before[k][i]));
            }
        }
        assert forall|k: int| 0 <= k && k + 1 < after.len() implies !follows(
            (#[trigger] after[k + 1])[0],
            after[k].last(),
        ) by {
            if k + 1 < before.len() - 1 {
                assert(after[k + 1] == before[k + 1]);
                assert(after[k] == before[k]);
                assert(!follows(before[k + 1][0], before[k].last()));
            } else if k + 1 == before.len() - 1 {
                assert(after[k] == before[k]);
                assert(after[k + 1][0] == before[k + 1][0]);
                assert(!follows(before[k + 1][0], before[k].last()));
            } else {
                assert(after[k] == before[k]);
            }
        }
    }
}

/// Only chunks that are neither holes nor ready are fetched.
pub proof fn lemma_missing_are_backend<C: BlobChunkInfo>(
    descs: Seq<BlobIoDesc<C>>,
    ready: Seq<bool>,
)
    requires
        descs.len() == ready.len(),
    ensures
        forall|i: int|
            0 <= i < missing(descs, ready).len() ==> !(#[trigger] missing(
                descs,
                ready,
            )[i]).chunkinfo@.hole,
        forall|i: int|
            0 <= i < missing(descs, ready).len() ==> exists|j: int|
                0 <= j < descs.len() && descs[j] == #[trigger] missing(descs, ready)[i]
                    && !ready[j],
    decreases descs.len(),
{
    if descs.len() > 0 {
        lemma_missing_are_backend(descs.drop_last(), ready.drop_last());
        let before = missing(descs.drop_last(), ready.drop_last());
        let all = missing(descs, ready);
        assert forall|i: int| 0 <= i < all.len() implies exists|j: int|
            0 <= j < descs.len() && descs[j] == #[trigger] all[i] && !ready[j] by {
            if i < before.len() {
                assert(all[i] == before[i]);
                let j = choose|j: int|
                    0 <= j < descs.drop_last().len() && descs.drop_last()[j] == before[i]
                        && !ready.drop_last()[j];
                assert(descs[j] == all[i] && !ready[j]);
            } else {
                let j = descs.len() - 1;
                assert(descs[j] == all[i] && !ready[j]);
            }
        }
        assert forall|i: int| 0 <= i < all.len() implies !(#[trigger] all[i]).chunkinfo@.hole by {
            if i < before.len() {
                assert(all[i] == before[i]);
            }
        }
    }
}

/// No request of a plan covers a hole: a hole is served without the backend.
pub proof fn lemma_plan_fetches_no_hole<C: BlobChunkInfo>(
    ranges: Seq<BlobIoRange<C>>,
    descs: Seq<BlobIoDesc<C>>,
    ready: Seq<bool>,
)
    requires
        descs.len() == ready.len(),
        planned(ranges, groups(missing(descs, ready))),
    ensures
        forall|k: int, i: int|
            0 <= k < ranges.len() && 0 <= i < ranges[k].chunks@.len() ==> !(
            #[trigger] ranges[k].chunks@[i])@.hole,
{
    let found = missing(descs, ready);
    lemma_missing_are_backend(descs, ready);
    lemma_groups_members(found, |d: BlobIoDesc<C>| !d.chunkinfo@.hole);
    assert forall|k: int, i: int|
        0 <= k < ranges.len() && 0 <= i < ranges[k].chunks@.len() implies !(
    #[trigger] ranges[k].chunks@[i])@.hole by {
        assert(describes(ranges[k], groups(found)[k]));
        assert(ranges[k].chunks@[i] == groups(found)[k][i].chunkinfo);
    }
}

/// A read whose chunks are all ready, or holes, asks nothing of the backend.
pub proof fn lemma_ready_needs_no_fetch<C: BlobChunkInfo>(
    ranges: Seq<BlobIoRange<C>>,
    descs: Seq<BlobIoDesc<C>>,
    ready: Seq<bool>,
)
    requires
        descs.len() == ready.len(),
        forall|j: int| 0 <= j < descs.len() ==> ready[j] || (#[trigger] descs[j]).chunkinfo@.hole,
        planned(ranges, groups(missing(descs, ready))),
    ensures
        missing(descs, ready).len() == 0,
        ranges.len() == 0,
{
    lemma_missing_are_backend(descs, ready);
    let found = missing(descs, ready);
    if found.len() > 0 {
        let j = choose|j: int| 0 <= j < descs.len() && descs[j] == found[0] && !ready[j];
        assert(ready[j] || descs[j].chunkinfo@.hole);
        assert(!found[0].chunkinfo@.hole);
    }
    lemma_groups_shape(found);
}

/// Every request of a plan is contiguous: each of its chunks starts in the
/// compressed blob where the chunk before it ends.
pub proof fn lemma_plan_is_contiguous<C: BlobChunkInfo>(
    ranges: Seq<BlobIoRange<C>>,
    grouped: Seq<Seq<BlobIoDesc<C>>>,
)
    requires
        planned(ranges, grouped),
    ensures
        forall|k: int, i: int|
            0 <= k < ranges.len() && 0 <= i && i + 1 < ranges[k].chunks@.len() ==> (
            #[trigger] ranges[k].chunks@[i + 1])@.compress_offset
                == ranges[k].chunks@[i]@.compress_end(),
{
    assert forall|k: int, i: int|
        0 <= k < ranges.len() && 0 <= i && i + 1 < ranges[k].chunks@.len() implies (
    #[trigger] ranges[k].chunks@[i + 1])@.compress_offset
        == ranges[k].chunks@[i]@.compress_end() by {
        assert(describes(ranges[k], grouped[k]));
        assert(ranges[k].wf());
    }
}

} // verus!
