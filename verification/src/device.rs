//! The blob device: a group of per-blob caches behind one entry point.
//!
//! The device holds one cache per blob, at the position of the blob's index.
//! The group is replaced as a whole when the storage backend is reconfigured,
//! without blocking readers: each operation works on the group that it finds
//! when it starts.

use crate::blob_info::BlobInfo;
use crate::cache::{BlobCache, BlobCacheBuilder, BlobObject, BlobPrefetchRequest, ChunkMap};
use crate::chunk::{share, BlobChunkInfo};
use crate::error::StorageError;
use crate::factory::{keeps_all, kept, lemma_kept_after_push, BlobFactory};
use crate::io_range::BlobIoRange;
use crate::io_vec::{BlobIoDesc, BlobIoVec};
use crate::read_plan::{groups, lemma_ready_needs_no_fetch, missing, planned};
use arc_swap::ArcSwap;
use fuse_backend_rs::file_buf::FileVolatileSlice;
use std::sync::Arc;
use vm_memory::volatile_memory::Error as VolatileError;
use vm_memory::Bytes;
use vstd::prelude::*;
use vstd::slice::slice_subrange;

verus! {

/// The group of caches of a device, in a cell of `arc_swap` that replaces
/// its value atomically: `ArcSwap<Vec<Arc<B>>>`. Readers take the group that
/// the cell holds when they ask, and keep it while they work.
#[verifier::external_body]
#[verifier::reject_recursive_types(B)]
pub struct BlobTable<B> {
    cell: ArcSwap<Vec<Arc<B>>>,
}

/// The error of an access to volatile memory, `vm_memory::volatile_memory::Error`.
#[verifier::external_type_specification]
#[verifier::external_body]
pub struct ExVolatileError(VolatileError);

/// `ArcSwap::new`: a cell that holds `blobs`.
#[verifier::external_body]
fn table_new<B>(blobs: Vec<Arc<B>>) -> BlobTable<B> {
    BlobTable { cell: ArcSwap::new(Arc::new(blobs)) }
}

/// `ArcSwapAny::load_full`: the group that the cell holds at this moment.
/// Another thread may replace the group at any time, so nothing is known of
/// what comes back.
#[verifier::external_body]
fn table_load<B>(table: &BlobTable<B>) -> Arc<Vec<Arc<B>>> {
    table.cell.load_full()
}

/// `ArcSwapAny::store`: replace the group that the cell holds by `blobs`.
#[verifier::external_body]
fn table_store<B>(table: &BlobTable<B>, blobs: Vec<Arc<B>>) {
    table.cell.store(Arc::new(blobs))
}

/// The number of bytes that a buffer of the transport holds, which is fixed
/// when the buffer is made.
pub uninterp spec fn buffer_len(buf: FileVolatileSlice) -> nat;

/// `FileVolatileSlice::len`: the size of the buffer.
#[verifier::external_body]
fn buffer_size(buf: &FileVolatileSlice) -> (r: usize)
    ensures
        r == buffer_len(*buf),
{
    buf.len()
}

/// `Bytes::write_slice` on a `FileVolatileSlice`: copy `data` into the buffer
/// at `offset`. It succeeds if `data` is empty or fits between `offset` and
/// the end of the buffer, and fails otherwise.
#[verifier::external_body]
fn buffer_write(buf: &FileVolatileSlice, data: &[u8], offset: usize) -> (r: Result<
    (),
    VolatileError,
>)
    ensures
        r is Ok <==> data@.len() == 0 || offset + data@.len() <= buffer_len(*buf),
{
    buf.write_slice(data, offset)
}

/// The number of bytes that the buffers of `bufs` hold together.
pub open spec fn capacity(bufs: Seq<FileVolatileSlice>) -> nat
    decreases bufs.len(),
{
    if bufs.len() == 0 {
        0
    } else {
        capacity(bufs.drop_last()) + buffer_len(bufs.last())
    }
}

/// The size of the bursts in which zeros are written.
pub const ZERO_BURST: usize = 4096;

/// Write zeros to the first `size` bytes of `bufs`, in bursts of at most
/// [`ZERO_BURST`] bytes, and report how many bytes were written: `size`, or
/// what the buffers hold if that is less.
pub fn fill_hole(bufs: &[FileVolatileSlice], size: usize) -> (r: Result<usize, StorageError>)
    ensures
        r == Ok::<usize, StorageError>(
            if size <= capacity(bufs@) {
                size
            } else {
                capacity(bufs@) as usize
            },
        ),
{
    let zeros: Vec<u8> = vec![0u8; ZERO_BURST];
    let mut count: usize = 0;
    let mut remain: usize = size;
    let mut n: usize = 0;
    while n < bufs.len()
        invariant
            n <= bufs@.len(),
            zeros@.len() == ZERO_BURST,
            count + remain == size,
            count == if size <= capacity(bufs@.take(n as int)) {
                size as nat
            } else {
                capacity(bufs@.take(n as int))
            },
        decreases bufs@.len() - n,
    {
        let len = buffer_size(&bufs[n]);
        let mut total: usize = if remain < len {
            remain
        } else {
            len
        };
        let ghost start = count;
        let ghost goal = total;
        let mut offset: usize = 0;
        while total > 0
            invariant
                n < bufs@.len(),
                zeros@.len() == ZERO_BURST,
                count + remain == size,
                total <= remain,
                offset + total == goal,
                goal <= buffer_len(bufs@[n as int]),
                count == start + offset,
            decreases total,
        {
            let cnt: usize = if total < ZERO_BURST {
                total
            } else {
                ZERO_BURST
            };
            match buffer_write(&bufs[n], slice_subrange(zeros.as_slice(), 0, cnt), offset) {
                Ok(_) => {},
                Err(_) => {
                    return Err(StorageError::Io);
                },
            }
            count += cnt;
            remain -= cnt;
            total -= cnt;
            offset += cnt;
        }
        proof {
            let head = bufs@.take(n + 1);
            assert(head.drop_last() == bufs@.take(n as int));
            assert(head.last() == bufs@[n as int]);
        }
        n += 1;
    }
    assert(bufs@.take(bufs@.len() as int) == bufs@);
    Ok(count)
}

/// What is asked of a cache to serve a read.
#[derive(Clone, Copy, Debug, PartialEq, Eq, Structural)]
pub struct BlobReadRequest {
    /// The index of the blob to read.
    pub blob_index: u32,
    /// The number of bytes to read.
    pub size: usize,
}

/// Whether the answer of a readiness map says that the chunk is ready.
pub fn answer_is_ready(answer: Result<bool, StorageError>) -> (r: bool)
    ensures
        r <==> answer == Ok::<bool, StorageError>(true),
{
    match answer {
        Ok(ready) => ready,
        Err(_) => false,
    }
}

/// The index of the first cache of `blobs` that serves the blob `blob_id`.
pub open spec fn position_of<B: BlobCache>(blobs: Seq<Arc<B>>, blob_id: Seq<char>) -> Option<int>
    decreases blobs.len(),
{
    if blobs.len() == 0 {
        None
    } else if position_of(blobs.drop_last(), blob_id) is Some {
        position_of(blobs.drop_last(), blob_id)
    } else if blobs.last().view().blob_id@ == blob_id {
        Some(blobs.len() - 1)
    } else {
        None
    }
}

/// The cache of `blobs` that serves the list `iovec`: the one at the index of
/// the blob that the list reads, if the device has that many blobs.
pub open spec fn cache_of<B: BlobCache>(
    blobs: Seq<Arc<B>>,
    blob_count: usize,
    iovec: &BlobIoVec<B::Chunk>,
) -> Option<Arc<B>> {
    match iovec.target() {
        Some(index) => if index < blob_count && index < blobs.len() {
            Some(blobs[index as int])
        } else {
            None
        },
        None => None,
    }
}

/// The cache of `blobs` that serves the list `iovec`.
pub fn find_blob_by_iovec<B: BlobCache>(
    blobs: &Vec<Arc<B>>,
    blob_count: usize,
    iovec: &BlobIoVec<B::Chunk>,
) -> (r: Option<Arc<B>>)
    ensures
        r == cache_of(blobs@, blob_count, iovec),
{
    if let Some(blob_index) = iovec.get_target_blob_index() {
        let index = blob_index as usize;
        if index < blob_count && index < blobs.len() {
            return Some(share(&blobs[index]));
        }
    }
    None
}

/// The first cache of `blobs` that serves the blob `blob_id`.
pub fn find_blob_by_id<B: BlobCache>(blobs: &Vec<Arc<B>>, blob_id: &str) -> (r: Option<Arc<B>>)
    ensures
        r == match position_of(blobs@, blob_id@) {
            Some(i) => Some(blobs@[i]),
            None => None,
        },
        position_of(blobs@, blob_id@) matches Some(i) ==> 0 <= i < blobs@.len()
            && blobs@[i].view().blob_id@ == blob_id@,
{
    match find_position(blobs, blob_id) {
        Some(index) => Some(share(&blobs[index])),
        None => None,
    }
}

/// The index of the first cache of `blobs` that serves the blob `blob_id`.
pub fn find_position<B: BlobCache>(blobs: &Vec<Arc<B>>, blob_id: &str) -> (r: Option<usize>)
    ensures
        r is Some <==> position_of(blobs@, blob_id@) is Some,
        r matches Some(index) ==> position_of(blobs@, blob_id@) == Some(index as int) && index
            < blobs@.len() && blobs@[index as int].view().blob_id@ == blob_id@,
{
    let mut n: usize = 0;
    while n < blobs.len()
        invariant
            n <= blobs@.len(),
            position_of(blobs@.take(n as int), blob_id@) is None,
        decreases blobs@.len() - n,
    {
        proof {
            let head = blobs@.take(n + 1);
            assert(head.drop_last() == blobs@.take(n as int));
            assert(head.last() == blobs@[n as int]);
        }
        if same_text(blobs[n].blob_id(), blob_id) {
            proof {
                lemma_position_extends(blobs@, blob_id@, n + 1);
            }
            return Some(n);
        }
        n += 1;
    }
    assert(blobs@.take(blobs@.len() as int) == blobs@);
    None
}

/// A match among the first `n` caches of `blobs` is the match in `blobs`.
proof fn lemma_position_extends<B: BlobCache>(blobs: Seq<Arc<B>>, blob_id: Seq<char>, n: int)
    requires
        0 <= n <= blobs.len(),
        position_of(blobs.take(n), blob_id) is Some,
    ensures
        position_of(blobs, blob_id) == position_of(blobs.take(n), blob_id),
    decreases blobs.len() - n,
{
    if n == blobs.len() {
        assert(blobs.take(n) == blobs);
    } else {
        let next = blobs.take(n + 1);
        assert(next.drop_last() == blobs.take(n));
        lemma_position_extends(blobs, blob_id, n + 1);
    }
}

/// Whether two texts are the same.
pub fn same_text(a: &str, b: &str) -> (r: bool)
    ensures
        r <==> a@ == b@,
{
    a.to_owned() == b.to_owned()
}

/// Whether the data of every chunk of `iovec` is in the local storage of
/// `blob` for good.
pub open spec fn all_present<B: BlobCache>(blob: B, iovec: BlobIoVec<B::Chunk>) -> bool {
    forall|k: int|
        0 <= k < iovec.bi_vec@.len() ==> blob.chunk_present(
            (#[trigger] iovec.bi_vec@[k]).chunkinfo@.id,
        )
}

/// Whether the data of every chunk of `iovec` is in the local storage of a
/// cache for good.
pub open spec fn stored<B: BlobCache>(iovec: BlobIoVec<B::Chunk>) -> bool {
    exists|cache: Arc<B>| #[trigger] all_present(*cache, iovec)
}

/// A list whose chunks are all in the local storage of `blob` asks nothing of
/// the backend: the plan of a read of the list that takes `ready` from what
/// the cache has in local storage holds no request.
pub proof fn lemma_present_needs_no_fetch<B: BlobCache>(
    blob: B,
    iovec: BlobIoVec<B::Chunk>,
    ready: Seq<bool>,
    ranges: Seq<BlobIoRange<B::Chunk>>,
)
    requires
        all_present(blob, iovec),
        ready.len() == iovec.bi_vec@.len(),
        forall|k: int|
            0 <= k < ready.len() ==> #[trigger] ready[k] == blob.chunk_present(
                iovec.bi_vec@[k].chunkinfo@.id,
            ),
        planned(ranges, groups(missing(iovec.bi_vec@, ready))),
    ensures
        ranges.len() == 0,
{
    assert forall|j: int| 0 <= j < iovec.bi_vec@.len() implies ready[j] || (
    #[trigger] iovec.bi_vec@[j]).chunkinfo@.hole by {
        assert(blob.chunk_present(iovec.bi_vec@[j].chunkinfo@.id));
    }
    lemma_ready_needs_no_fetch(ranges, iovec.bi_vec@, ready);
}

/// Whether the readiness map of `blob` reports every chunk of `iovec` as
/// ready. The chunks of a list that is reported as ready are in local storage.
fn chunks_ready<B: BlobCache>(blob: &B, iovec: &BlobIoVec<B::Chunk>) -> (r: bool)
    ensures
        r ==> all_present(*blob, *iovec),
        iovec.bi_vec@.len() == 0 ==> r,
{
    let chunk_map = blob.get_chunk_map();
    let mut n: usize = 0;
    while n < iovec.bi_vec.len()
        invariant
            n <= iovec.bi_vec@.len(),
            forall|id: u32| #[trigger] chunk_map.present(id) ==> blob.chunk_present(id),
            forall|k: int|
                0 <= k < n ==> blob.chunk_present((#[trigger] iovec.bi_vec@[k]).chunkinfo@.id),
        decreases iovec.bi_vec@.len() - n,
    {
        if !answer_is_ready(chunk_map.is_ready(&iovec.bi_vec[n].chunkinfo)) {
            return false;
        }
        n += 1;
    }
    true
}

/// What is done for a request to make a range ready.
#[derive(Clone, Copy, Debug, PartialEq, Eq, Structural)]
pub enum FetchAction {
    /// The request is passed over.
    Skip,
    /// The cache at `index` is asked to make `len` bytes at `offset` of the
    /// uncompressed blob ready.
    Fetch { index: usize, offset: u64, len: u64 },
    /// The request cannot be served, and ends the work with `InvalidInput`.
    Reject,
}

/// What is done for the request `req` with the caches `blobs`: a request
/// without length, and one for a blob that no cache serves, is passed over;
/// the first cache that serves the blob is asked for the range of the
/// request if it gives direct access; otherwise the request is rejected.
pub open spec fn spec_fetch_action<B: BlobCache>(
    blobs: Seq<Arc<B>>,
    req: BlobPrefetchRequest,
) -> FetchAction {
    if req.len == 0 {
        FetchAction::Skip
    } else {
        match position_of(blobs, req.blob_id@) {
            None => FetchAction::Skip,
            Some(i) => if blobs[i].view().direct_access {
                FetchAction::Fetch { index: i as usize, offset: req.offset, len: req.len }
            } else {
                FetchAction::Reject
            },
        }
    }
}

/// Whether the request `req` is passed over with the caches `blobs`.
pub open spec fn passed_over<B: BlobCache>(blobs: Seq<Arc<B>>, req: BlobPrefetchRequest) -> bool {
    req.len == 0 || position_of(blobs, req.blob_id@) is None
}

/// Whether `blobs` can make the range of `req` ready: the request has no
/// length, or no cache serves its blob, or the cache that serves its blob
/// gives direct access.
pub open spec fn fetchable<B: BlobCache>(blobs: Seq<Arc<B>>, req: BlobPrefetchRequest) -> bool {
    req.len == 0 || match position_of(blobs, req.blob_id@) {
        Some(i) => blobs[i].view().direct_access,
        None => true,
    }
}

/// Whether `blobs` can make the range of every request of `prefetches` ready.
pub open spec fn all_fetchable<B: BlobCache>(
    blobs: Seq<Arc<B>>,
    prefetches: Seq<BlobPrefetchRequest>,
) -> bool {
    forall|i: int| 0 <= i < prefetches.len() ==> fetchable(blobs, #[trigger] prefetches[i])
}

/// Whether the first request of `prefetches` that is not passed over is one
/// that `blobs` cannot serve.
pub open spec fn rejects_first<B: BlobCache>(
    blobs: Seq<Arc<B>>,
    prefetches: Seq<BlobPrefetchRequest>,
) -> bool {
    exists|k: int|
        0 <= k < prefetches.len() && !fetchable(blobs, #[trigger] prefetches[k]) && forall|j: int|
            0 <= j < k ==> passed_over(blobs, #[trigger] prefetches[j])
}

/// What is done for the request `req` with the caches `blobs`: see
/// [`spec_fetch_action`].
pub fn fetch_action<B: BlobCache>(blobs: &Vec<Arc<B>>, req: &BlobPrefetchRequest) -> (r:
    FetchAction)
    ensures
        r == spec_fetch_action(blobs@, *req),
        r matches FetchAction::Fetch { index, .. } ==> index < blobs@.len()
            && blobs@[index as int].view().direct_access,
        r is Skip <==> passed_over(blobs@, *req),
        r is Reject <==> !fetchable(blobs@, *req),
{
    if req.len == 0 {
        return FetchAction::Skip;
    }
    match find_position(blobs, req.blob_id.as_str()) {
        None => FetchAction::Skip,
        Some(index) => {
            if blobs[index].get_blob_object().is_some() {
                FetchAction::Fetch { index, offset: req.offset, len: req.len }
            } else {
                FetchAction::Reject
            }
        },
    }
}

/// What a fetch that ended with `outcome` makes of the work: the work goes
/// on after a fetch that succeeded, and ends with the failure of a fetch
/// that failed.
pub fn fetch_outcome(outcome: Result<usize, StorageError>) -> (r: Result<(), StorageError>)
    ensures
        r == match outcome {
            Ok(_) => Ok::<(), StorageError>(()),
            Err(e) => Err::<(), StorageError>(e),
        },
{
    match outcome {
        Ok(_) => Ok(()),
        Err(e) => Err(e),
    }
}

/// Make the ranges of `prefetches` ready through the caches of `blobs`, one
/// after the other: [`fetch_action`] says what is done for each request, and
/// [`fetch_outcome`] what a fetch makes of the work. The first request that
/// is rejected, and the first fetch that fails, ends the work.
pub fn fetch_ranges<B: BlobCache>(blobs: &Vec<Arc<B>>, prefetches: &[BlobPrefetchRequest]) -> (r:
    Result<(), StorageError>)
    ensures
        r is Ok ==> all_fetchable(blobs@, prefetches@),
        (forall|i: int|
            0 <= i < prefetches@.len() ==> passed_over(blobs@, #[trigger] prefetches@[i])) ==> r
            is Ok,
        rejects_first(blobs@, prefetches@) ==> r == Err::<(), StorageError>(
            StorageError::InvalidInput,
        ),
{
    let mut n: usize = 0;
    while n < prefetches.len()
        invariant
            n <= prefetches@.len(),
            forall|i: int| 0 <= i < n ==> fetchable(blobs@, #[trigger] prefetches@[i]),
            (forall|i: int|
                0 <= i < prefetches@.len() ==> passed_over(blobs@, #[trigger] prefetches@[i]))
                ==> forall|i: int| 0 <= i < n ==> passed_over(blobs@, #[trigger] prefetches@[i]),
        decreases prefetches@.len() - n,
    {
        match fetch_action(blobs, &prefetches[n]) {
            FetchAction::Skip => {},
            FetchAction::Reject => {
                return Err(StorageError::InvalidInput);
            },
            FetchAction::Fetch { index, offset, len } => {
                let done = match blobs[index].get_blob_object() {
                    Some(obj) => fetch_outcome(obj.fetch_range_uncompressed(offset, len)),
                    None => Err(StorageError::InvalidInput),
                };
                if done.is_err() {
                    proof {
                        lemma_serves_first(blobs@, prefetches@, n as int);
                    }
                    return done;
                }
            },
        }
        n += 1;
    }
    proof {
        if rejects_first(blobs@, prefetches@) {
            let k = choose|k: int|
                0 <= k < prefetches@.len() && !fetchable(blobs@, #[trigger] prefetches@[k])
                    && forall|j: int| 0 <= j < k ==> passed_over(blobs@, #[trigger] prefetches@[j]);
            assert(fetchable(blobs@, prefetches@[k]));
        }
    }
    Ok(())
}

/// Where the requests before the one at `n` can be served, and the one at
/// `n` is served by a cache, no request is rejected first.
proof fn lemma_serves_first<B: BlobCache>(
    blobs: Seq<Arc<B>>,
    prefetches: Seq<BlobPrefetchRequest>,
    n: int,
)
    requires
        0 <= n < prefetches.len(),
        forall|i: int| 0 <= i < n ==> fetchable(blobs, #[trigger] prefetches[i]),
        fetchable(blobs, prefetches[n]),
        !passed_over(blobs, prefetches[n]),
    ensures
        !rejects_first(blobs, prefetches),
{
    if rejects_first(blobs, prefetches) {
        let k = choose|k: int|
            0 <= k < prefetches.len() && !fetchable(blobs, #[trigger] prefetches[k])
                && forall|j: int| 0 <= j < k ==> passed_over(blobs, #[trigger] prefetches[j]);
        if k > n {
            assert(passed_over(blobs, prefetches[n]));
        }
    }
}

/// Ask `factory` for the cache of each blob of `blob_infos`, in their order.
/// The first failure of the factory ends the work and is reported. Where the
/// factory keeps a cache for every blob, nothing is built and nothing fails.
pub fn create_caches<M: BlobCacheBuilder>(
    factory: &mut BlobFactory<M>,
    config: &Arc<M::Config>,
    blob_infos: &[Arc<BlobInfo>],
) -> (r: Result<Vec<Arc<M::Cache>>, StorageError>)
    ensures
        r matches Ok(blobs) ==> blobs@.len() == blob_infos@.len() && forall|i: int|
            0 <= i < blobs@.len() ==> (#[trigger] blobs@[i]).view().blob_id@
                == blob_infos@[i]@.blob_id,
        r matches Ok(blobs) ==> forall|i: int|
            0 <= i < blob_infos@.len() ==> kept(
                final(factory)@,
                old(factory).key_of(&**config),
                (#[trigger] blob_infos@[i])@.blob_id,
            ) == Some(blobs@[i]),
        r is Ok ==> keeps_all(final(factory)@, old(factory).key_of(&**config), blob_infos@),
        keeps_all(old(factory)@, old(factory).key_of(&**config), blob_infos@) ==> r is Ok
            && final(factory)@ == old(factory)@,
        blob_infos@.len() == 0 ==> r is Ok && final(factory)@ == old(factory)@,
        old(factory)@.len() <= final(factory)@.len() <= old(factory)@.len() + blob_infos@.len(),
        final(factory).spec_builder() == old(factory).spec_builder(),
{
    let ghost key = factory.key_of(&**config);
    let mut blobs: Vec<Arc<M::Cache>> = Vec::with_capacity(blob_infos.len());
    let mut n: usize = 0;
    while n < blob_infos.len()
        invariant
            n <= blob_infos@.len(),
            blobs@.len() == n,
            key == old(factory).key_of(&**config),
            factory.spec_builder() == old(factory).spec_builder(),
            n == 0 ==> factory@ == old(factory)@,
            keeps_all(old(factory)@, key, blob_infos@) ==> factory@ == old(factory)@,
            old(factory)@.len() <= factory@.len() <= old(factory)@.len() + n,
            forall|i: int|
                0 <= i < n ==> (#[trigger] blobs@[i]).view().blob_id@ == blob_infos@[i]@.blob_id,
            forall|i: int|
                0 <= i < n ==> kept(factory@, key, (#[trigger] blob_infos@[i])@.blob_id) == Some(
                    blobs@[i],
                ),
        decreases blob_infos@.len() - n,
    {
        let ghost before = factory@;
        let ghost made = blobs@;
        match factory.new_blob_cache(config, &blob_infos[n]) {
            Ok(blob) => {
                blobs.push(blob);
                proof {
                    if kept(before, key, blob_infos@[n as int]@.blob_id) is None {
                        assert(factory@ == before.push(factory@.last()));
                        assert forall|i: int| 0 <= i < n implies kept(
                            factory@,
                            key,
                            (#[trigger] blob_infos@[i])@.blob_id,
                        ) == Some(blobs@[i]) by {
                            lemma_kept_after_push(
                                before,
                                factory@.last(),
                                key,
                                blob_infos@[i]@.blob_id,
                            );
                            assert(blobs@[i] == made[i]);
                        }
                    } else {
                        assert forall|i: int| 0 <= i < n implies kept(
                            factory@,
                            key,
                            (#[trigger] blob_infos@[i])@.blob_id,
                        ) == Some(blobs@[i]) by {
                            assert(blobs@[i] == made[i]);
                        }
                    }
                }
            },
            Err(e) => {
                return Err(e);
            },
        }
        n += 1;
    }
    Ok(blobs)
}

/// One step of the replacement of the caches of a device.
#[derive(Clone, Copy, Debug, PartialEq, Eq, Structural)]
pub enum UpdateStep {
    /// Stop the prefetch workers of the caches that the device has.
    StopPrefetch,
    /// Put the new caches in the place of those that the device has.
    Store,
    /// Start the prefetch workers of the caches that the device has.
    StartPrefetch,
}

/// The steps that replace the caches of a device, in their order. With
/// prefetch, the workers of the old caches are stopped before the caches are
/// replaced, and those of the new caches are started after: workers share
/// their cache, which would otherwise live on.
pub open spec fn spec_update_steps(fs_prefetch: bool) -> Seq<UpdateStep> {
    if fs_prefetch {
        seq![UpdateStep::StopPrefetch, UpdateStep::Store, UpdateStep::StartPrefetch]
    } else {
        seq![UpdateStep::Store]
    }
}

/// The steps that replace the caches of a device: see [`spec_update_steps`].
pub fn update_steps(fs_prefetch: bool) -> (r: Vec<UpdateStep>)
    ensures
        r@ == spec_update_steps(fs_prefetch),
{
    let mut steps: Vec<UpdateStep> = Vec::new();
    if fs_prefetch {
        steps.push(UpdateStep::StopPrefetch);
    }
    steps.push(UpdateStep::Store);
    if fs_prefetch {
        steps.push(UpdateStep::StartPrefetch);
    }
    assert(steps@ =~= spec_update_steps(fs_prefetch));
    steps
}

/// A group of per-blob caches that serves the reads of a filesystem.
#[verifier::reject_recursive_types(B)]
pub struct BlobDevice<B: BlobCache> {
    blobs: BlobTable<B>,
    blob_count: usize,
}

impl<B: BlobCache> BlobDevice<B> {
    /// The number of blobs of the device, which never changes.
    pub closed spec fn spec_blob_count(&self) -> usize {
        self.blob_count
    }

    /// How the device serves a read of `desc`: not at all for an empty list
    /// without size, and by the cache of the blob that the list reads
    /// otherwise. A list without descriptors but with a size, a list against
    /// several blobs and a list against a blob that the device does not have
    /// are rejected.
    pub open spec fn spec_read_to(&self, desc: &BlobIoVec<B::Chunk>) -> Result<
        Option<BlobReadRequest>,
        StorageError,
    > {
        if desc.bi_vec@.len() == 0 {
            if desc.bi_size == 0 {
                Ok(None)
            } else {
                Err(StorageError::InvalidInput)
            }
        } else if !desc.targets_one_blob() {
            Err(StorageError::InvalidInput)
        } else if desc.bi_vec@[0].blob_index() >= self.spec_blob_count() {
            Err(StorageError::InvalidInput)
        } else {
            Ok(
                Some(
                    BlobReadRequest {
                        blob_index: desc.bi_vec@[0].blob_index(),
                        size: desc.bi_size,
                    },
                ),
            )
        }
    }

    /// Create a device with the caches that `factory` makes for `blob_infos`.
    pub fn new<M: BlobCacheBuilder<Cache = B>>(
        factory: &mut BlobFactory<M>,
        config: &Arc<M::Config>,
        blob_infos: &[Arc<BlobInfo>],
    ) -> (r: Result<BlobDevice<B>, StorageError>)
        ensures
            r matches Ok(device) ==> device.spec_blob_count() == blob_infos@.len(),
            r is Ok ==> keeps_all(final(factory)@, old(factory).key_of(&**config), blob_infos@),
            keeps_all(old(factory)@, old(factory).key_of(&**config), blob_infos@) ==> r is Ok
                && final(factory)@ == old(factory)@,
            blob_infos@.len() == 0 ==> r is Ok,
            old(factory)@.len() <= final(factory)@.len() <= old(factory)@.len()
                + blob_infos@.len(),
            final(factory).spec_builder() == old(factory).spec_builder(),
    {
        match create_caches(factory, config, blob_infos) {
            Ok(blobs) => Ok(BlobDevice { blobs: table_new(blobs), blob_count: blob_infos.len() }),
            Err(e) => Err(e),
        }
    }

    /// The number of blobs of the device.
    pub fn blob_count(&self) -> (r: usize)
        ensures
            r == self.spec_blob_count(),
    {
        self.blob_count
    }

    /// Replace the caches of the device by those that `factory` makes for
    /// `blob_infos` under `config`, in the steps of [`update_steps`].
    ///
    /// The number of blobs has to stay; otherwise the device and the factory
    /// are left as they are and `InvalidInput` is reported. A failure of the
    /// factory is reported too, and leaves the device as it is. Where the
    /// number of blobs stays and the factory keeps a cache for every blob,
    /// the update succeeds.
    pub fn update<M: BlobCacheBuilder<Cache = B>>(
        &self,
        factory: &mut BlobFactory<M>,
        config: &Arc<M::Config>,
        blob_infos: &[Arc<BlobInfo>],
        fs_prefetch: bool,
    ) -> (r: Result<(), StorageError>)
        ensures
            blob_infos@.len() != self.spec_blob_count() ==> r == Err::<(), StorageError>(
                StorageError::InvalidInput,
            ) && final(factory)@ == old(factory)@,
            blob_infos@.len() == self.spec_blob_count() && keeps_all(
                old(factory)@,
                old(factory).key_of(&**config),
                blob_infos@,
            ) ==> r is Ok && final(factory)@ == old(factory)@,
            r is Ok ==> blob_infos@.len() == self.spec_blob_count() && keeps_all(
                final(factory)@,
                old(factory).key_of(&**config),
                blob_infos@,
            ),
            blob_infos@.len() == 0 && self.spec_blob_count() == 0 ==> r is Ok,
            old(factory)@.len() <= final(factory)@.len() <= old(factory)@.len()
                + blob_infos@.len(),
            final(factory).spec_builder() == old(factory).spec_builder(),
    {
        if self.blob_count != blob_infos.len() {
            return Err(StorageError::InvalidInput);
        }
        let blobs = match create_caches(factory, config, blob_infos) {
            Ok(blobs) => blobs,
            Err(e) => {
                return Err(e);
            },
        };
        let steps = update_steps(fs_prefetch);
        let mut group = Some(blobs);
        let mut n: usize = 0;
        while n < steps.len()
            invariant
                n <= steps@.len(),
            decreases steps@.len() - n,
        {
            match steps[n] {
                UpdateStep::StopPrefetch => {
                    self.stop_prefetch();
                },
                UpdateStep::Store => {
                    if let Some(blobs) = group.take() {
                        table_store(&self.blobs, blobs);
                    }
                },
                UpdateStep::StartPrefetch => {
                    self.start_prefetch();
                },
            }
            n += 1;
        }
        Ok(())
    }

    /// Close the device.
    pub fn close(&self) -> (r: Result<(), StorageError>)
        ensures
            r is Ok,
    {
        Ok(())
    }

    /// Decide how a read of `desc` is served: see [`BlobDevice::spec_read_to`].
    /// The caller hands the request to its writer, which calls
    /// [`BlobDevice::read_vectored_at_volatile`] with its buffers.
    pub fn read_to(&self, desc: &BlobIoVec<B::Chunk>) -> (r: Result<
        Option<BlobReadRequest>,
        StorageError,
    >)
        ensures
            r == self.spec_read_to(desc),
    {
        if desc.bi_vec.is_empty() {
            if desc.bi_size == 0 {
                Ok(None)
            } else {
                Err(StorageError::InvalidInput)
            }
        } else if !desc.validate() {
            Err(StorageError::InvalidInput)
        } else if desc.bi_vec[0].blob.blob_index() as usize >= self.blob_count {
            Err(StorageError::InvalidInput)
        } else {
            Ok(
                Some(
                    BlobReadRequest {
                        blob_index: desc.bi_vec[0].blob.blob_index(),
                        size: desc.bi_size,
                    },
                ),
            )
        }
    }

    /// Let the cache of the blob that `iovec` reads serve the list into
    /// `buffers`, and report what the cache reports: the size of the list
    /// where the read succeeds. A list for which the device finds no cache is
    /// rejected with `InvalidInput`.
    pub fn read_vectored_at_volatile(
        &self,
        iovec: &mut BlobIoVec<B::Chunk>,
        buffers: &[FileVolatileSlice],
    ) -> (r: Result<usize, StorageError>)
        ensures
            old(iovec).target() is None ==> r == Err::<usize, StorageError>(
                StorageError::InvalidInput,
            ),
            r matches Ok(n) ==> n == old(iovec).bi_size,
    {
        let blobs = table_load(&self.blobs);
        if let Some(index) = iovec.get_target_blob_index() {
            if (index as usize) < blobs.len() {
                return blobs[index as usize].read(iovec, buffers);
            }
        }
        Err(StorageError::InvalidInput)
    }

    /// Ask the caches to prefetch: each request of `prefetches` goes to the
    /// cache of its blob, and the descriptors of each list of `io_vecs` to the
    /// cache of the blob that the list reads. Requests and lists without a
    /// cache are passed over, and so are failures of the caches.
    pub fn prefetch(
        &self,
        io_vecs: &[&BlobIoVec<B::Chunk>],
        prefetches: &[BlobPrefetchRequest],
    ) -> (r: Result<(), StorageError>)
        ensures
            r is Ok,
    {
        let none: Vec<BlobPrefetchRequest> = Vec::new();
        let nothing: Vec<BlobIoDesc<B::Chunk>> = Vec::new();
        let mut idx: usize = 0;
        while idx < prefetches.len()
            invariant
                idx <= prefetches@.len(),
            decreases prefetches@.len() - idx,
        {
            if let Some(blob) = self.get_blob_by_id(prefetches[idx].blob_id.as_str()) {
                let _ = blob.prefetch(
                    share(&blob),
                    slice_subrange(prefetches, idx, idx + 1),
                    nothing.as_slice(),
                );
            }
            idx += 1;
        }
        let mut n: usize = 0;
        while n < io_vecs.len()
            invariant
                n <= io_vecs@.len(),
            decreases io_vecs@.len() - n,
        {
            if let Some(blob) = self.get_blob_by_iovec(io_vecs[n]) {
                let _ = blob.prefetch(share(&blob), none.as_slice(), io_vecs[n].bi_vec.as_slice());
            }
            n += 1;
        }
        Ok(())
    }

    /// Start the prefetch workers of all caches.
    pub fn start_prefetch(&self) {
        let blobs = table_load(&self.blobs);
        let mut n: usize = 0;
        while n < blobs.len()
            invariant
                n <= blobs@.len(),
            decreases blobs@.len() - n,
        {
            let _ = blobs[n].start_prefetch();
            n += 1;
        }
    }

    /// Stop the prefetch workers of all caches.
    pub fn stop_prefetch(&self) {
        let blobs = table_load(&self.blobs);
        let mut n: usize = 0;
        while n < blobs.len()
            invariant
                n <= blobs@.len(),
            decreases blobs@.len() - n,
        {
            let _ = blobs[n].stop_prefetch();
            n += 1;
        }
    }

    /// Whether every chunk of every list of `io_vecs` is reported as ready.
    /// A list for which the device finds no cache makes the answer `false`.
    /// Where the answer is `true`, each list reads a blob of the device, and
    /// the chunks of each list are in the local storage of a cache.
    pub fn all_chunks_ready(&self, io_vecs: &[BlobIoVec<B::Chunk>]) -> (r: bool)
        ensures
            r ==> forall|i: int|
                0 <= i < io_vecs@.len() ==> (#[trigger] io_vecs@[i]).target() is Some
                    && io_vecs@[i].target()->0 < self.spec_blob_count(),
            r ==> forall|i: int| 0 <= i < io_vecs@.len() ==> stored::<B>(#[trigger] io_vecs@[i]),
            io_vecs@.len() == 0 ==> r,
    {
        let mut n: usize = 0;
        while n < io_vecs.len()
            invariant
                n <= io_vecs@.len(),
                forall|i: int|
                    0 <= i < n ==> (#[trigger] io_vecs@[i]).target() is Some
                        && io_vecs@[i].target()->0 < self.spec_blob_count(),
                forall|i: int| 0 <= i < n ==> stored::<B>(#[trigger] io_vecs@[i]),
            decreases io_vecs@.len() - n,
        {
            match self.get_blob_by_iovec(&io_vecs[n]) {
                Some(blob) => {
                    if !chunks_ready(&*blob, &io_vecs[n]) {
                        return false;
                    }
                    assert(all_present(*blob, io_vecs@[n as int]));
                },
                None => {
                    return false;
                },
            }
            n += 1;
        }
        true
    }

    /// The cache that serves the list `iovec`, in the group that the device
    /// holds at this moment.
    pub fn get_blob_by_iovec(&self, iovec: &BlobIoVec<B::Chunk>) -> (r: Option<Arc<B>>)
        ensures
            r is Some ==> iovec.target() is Some && iovec.target()->0 < self.spec_blob_count(),
    {
        let blobs = table_load(&self.blobs);
        find_blob_by_iovec(&*blobs, self.blob_count, iovec)
    }

    /// The first cache that serves the blob `blob_id`, in the group that the
    /// device holds at this moment.
    pub fn get_blob_by_id(&self, blob_id: &str) -> (r: Option<Arc<B>>)
        ensures
            r matches Some(blob) ==> blob.view().blob_id@ == blob_id@,
    {
        let blobs = table_load(&self.blobs);
        find_blob_by_id(&*blobs, blob_id)
    }

    /// Make the ranges of `prefetches` ready, one after the other, and wait
    /// for each: see [`fetch_ranges`], which is given the caches that the
    /// device has at this moment.
    pub fn fetch_range_synchronous(&self, prefetches: &[BlobPrefetchRequest]) -> (r: Result<
        (),
        StorageError,
    >)
        ensures
            (forall|i: int| 0 <= i < prefetches@.len() ==> (#[trigger] prefetches@[i]).len == 0)
                ==> r is Ok,
            r is Ok ==> exists|blobs: Seq<Arc<B>>| #[trigger] all_fetchable(blobs, prefetches@),
    {
        let blobs = table_load(&self.blobs);
        let r = fetch_ranges(&*blobs, prefetches);
        assert(r is Ok ==> all_fetchable(blobs@, prefetches@));
        r
    }
}

impl<B: BlobCache> Clone for BlobDevice<B> {
    /// A device of its own with the caches that this device has at this
    /// moment. An update of one of the two leaves the other as it is.
    fn clone(&self) -> (r: Self)
        ensures
            r.spec_blob_count() == self.spec_blob_count(),
    {
        let blobs = table_load(&self.blobs);
        let mut copy: Vec<Arc<B>> = Vec::with_capacity(blobs.len());
        let mut n: usize = 0;
        while n < blobs.len()
            invariant
                n <= blobs@.len(),
            decreases blobs@.len() - n,
        {
            copy.push(share(&blobs[n]));
            n += 1;
        }
        BlobDevice { blobs: table_new(copy), blob_count: self.blob_count }
    }
}

} // verus!
