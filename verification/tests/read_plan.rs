use blob_device::blob_info::BlobInfo;
use blob_device::chunk::{BlobChunkInfo, BlobIoChunk, ChunkLayout};
use blob_device::error::StorageError;
use blob_device::features::BlobFeatures;
use blob_device::io_range::BlobIoTag;
use blob_device::io_vec::BlobIoDesc;
use blob_device::read_plan::{chunk_source, chunks_in_range, merge_missing, ChunkSource};
use nydus_utils::digest::RafsDigest;
use std::sync::Arc;

struct Chunk {
    digest: RafsDigest,
    id: u32,
    compress_offset: u64,
    compress_size: u32,
    uncompress_offset: u64,
    uncompress_size: u32,
    hole: bool,
}

impl BlobChunkInfo for Chunk {
    fn view(&self) -> ChunkLayout {
        ChunkLayout {
            digest: self.digest,
            id: self.id,
            blob_index: 0,
            compress_offset: self.compress_offset,
            compress_size: self.compress_size,
            uncompress_offset: self.uncompress_offset,
            uncompress_size: self.uncompress_size,
            compressed: true,
            hole: self.hole,
        }
    }

    fn chunk_id(&self) -> &RafsDigest {
        &self.digest
    }

    fn id(&self) -> u32 {
        self.id
    }

    fn blob_index(&self) -> u32 {
        0
    }

    fn compress_offset(&self) -> u64 {
        self.compress_offset
    }

    fn compress_size(&self) -> u32 {
        self.compress_size
    }

    fn uncompress_offset(&self) -> u64 {
        self.uncompress_offset
    }

    fn uncompress_size(&self) -> u32 {
        self.uncompress_size
    }

    fn is_compressed(&self) -> bool {
        true
    }

    fn is_hole(&self) -> bool {
        self.hole
    }
}

fn blob(index: u32) -> Arc<BlobInfo> {
    Arc::new(BlobInfo::new(
        index,
        format!("blob-{}", index),
        0x100000,
        0x80000,
        0x1000,
        16,
        BlobFeatures::empty(),
    ))
}

fn chunk(id: u32, compress_offset: u64, compress_size: u32) -> Chunk {
    Chunk {
        digest: RafsDigest::default(),
        id,
        compress_offset,
        compress_size,
        uncompress_offset: 0x1000 * id as u64,
        uncompress_size: 0x1000,
        hole: false,
    }
}

fn desc(blob: &Arc<BlobInfo>, c: Chunk, user_io: bool) -> BlobIoDesc<Chunk> {
    BlobIoDesc::new(blob.clone(), BlobIoChunk::from(Arc::new(c)), 0, 0x1000, user_io)
}

fn hole(blob: &Arc<BlobInfo>, id: u32) -> BlobIoDesc<Chunk> {
    let mut c = chunk(id, 0, 0);
    c.hole = true;
    desc(blob, c, true)
}

#[test]
fn test_chunk_source() {
    let b = blob(0);
    let plain = desc(&b, chunk(1, 0x1000, 0x100), true);
    assert_eq!(chunk_source(&plain, true), ChunkSource::Cache);
    assert_eq!(chunk_source(&plain, false), ChunkSource::Backend);
    // A hole is served without the backend, ready or not.
    assert_eq!(chunk_source(&hole(&b, 2), false), ChunkSource::Hole);
    assert_eq!(chunk_source(&hole(&b, 2), true), ChunkSource::Hole);
}

#[test]
fn test_merge_missing_contiguity() {
    let b = blob(0);
    let descs = vec![
        desc(&b, chunk(1, 0x1000, 0x100), true),
        desc(&b, chunk(2, 0x1100, 0x200), false),
        desc(&b, chunk(3, 0x1400, 0x80), true),
    ];
    let ranges = merge_missing(&descs, &[false, false, false]).unwrap();
    assert_eq!(ranges.len(), 2);
    assert_eq!(ranges[0].blob_offset, 0x1000);
    assert_eq!(ranges[0].blob_size, 0x300);
    assert_eq!(ranges[0].chunks.len(), 2);
    assert_eq!(ranges[0].chunks[0].id(), 1);
    assert_eq!(ranges[0].chunks[1].id(), 2);
    assert_eq!(ranges[0].tags.len(), 2);
    assert!(ranges[0].tags[0].is_user_io());
    assert!(matches!(ranges[0].tags[1], BlobIoTag::Internal(0x1100)));
    assert_eq!(ranges[0].blob_info.blob_id(), "blob-0");
    assert!(ranges[0].validate());
    // The third chunk leaves a gap and has a request of its own.
    assert_eq!(ranges[1].blob_offset, 0x1400);
    assert_eq!(ranges[1].blob_size, 0x80);
    assert_eq!(ranges[1].chunks.len(), 1);
    assert_eq!(ranges[1].chunks[0].id(), 3);
}

#[test]
fn test_merge_missing_skips_ready_and_holes() {
    let b = blob(0);
    let descs = vec![
        desc(&b, chunk(1, 0x1000, 0x100), true),
        desc(&b, chunk(2, 0x1100, 0x100), true),
        hole(&b, 3),
        desc(&b, chunk(4, 0x1200, 0x100), true),
        desc(&b, chunk(5, 0x1300, 0x100), true),
    ];
    // All chunks are ready or holes: nothing is asked of the backend.
    assert!(merge_missing(&descs, &[true, true, false, true, true])
        .unwrap()
        .is_empty());
    assert!(merge_missing(&descs, &[true, true, true, true, true])
        .unwrap()
        .is_empty());
    assert!(merge_missing(&[hole(&b, 1), hole(&b, 2)], &[false, false])
        .unwrap()
        .is_empty());
    let none: Vec<BlobIoDesc<Chunk>> = Vec::new();
    assert!(merge_missing(&none, &[]).unwrap().is_empty());

    // Chunk 2 is ready, so chunk 1 stands alone; the hole between chunk 2
    // and chunk 4 does not part chunk 4 from what is fetched before it, and
    // chunks 4 and 5 follow each other.
    let ranges = merge_missing(&descs, &[false, true, false, false, false]).unwrap();
    assert_eq!(ranges.len(), 2);
    assert_eq!((ranges[0].blob_offset, ranges[0].blob_size), (0x1000, 0x100));
    assert_eq!((ranges[1].blob_offset, ranges[1].blob_size), (0x1200, 0x200));
    assert_eq!(ranges[1].chunks.len(), 2);
    for range in &ranges {
        assert!(range.chunks.iter().all(|c| !c.is_hole()));
    }

    // Without chunk 2 in the way, chunks 1 to 5 make one request.
    let ranges = merge_missing(&descs, &[false, false, false, false, false]).unwrap();
    assert_eq!(ranges.len(), 1);
    assert_eq!((ranges[0].blob_offset, ranges[0].blob_size), (0x1000, 0x400));
    let ids: Vec<u32> = ranges[0].chunks.iter().map(|c| c.id()).collect();
    assert_eq!(ids, vec![1, 2, 4, 5]);
}

#[test]
fn test_merge_missing_other_blob() {
    let a = blob(0);
    let b = blob(1);
    let descs = vec![
        desc(&a, chunk(1, 0x1000, 0x100), true),
        desc(&b, chunk(2, 0x1100, 0x100), true),
    ];
    // Chunks of two blobs are not merged.
    let ranges = merge_missing(&descs, &[false, false]).unwrap();
    assert_eq!(ranges.len(), 2);
    assert_eq!(ranges[0].blob_info.blob_index(), 0);
    assert_eq!(ranges[1].blob_info.blob_index(), 1);
}

#[test]
fn test_merge_missing_rejects() {
    let b = blob(0);
    let descs = vec![desc(&b, chunk(1, 0x1000, 0x100), true)];
    assert!(matches!(
        merge_missing(&descs, &[]),
        Err(StorageError::InvalidInput)
    ));
    assert!(matches!(
        merge_missing(&descs, &[true, false]),
        Err(StorageError::InvalidInput)
    ));
    // A chunk that ends beyond the offset range cannot be fetched.
    let beyond = vec![
        desc(&b, chunk(1, 0x1000, 0x100), true),
        desc(&b, chunk(2, u64::MAX - 0x10, 0x100), true),
    ];
    assert!(matches!(
        merge_missing(&beyond, &[false, false]),
        Err(StorageError::InvalidInput)
    ));
    // It is not looked at while it is ready.
    assert_eq!(merge_missing(&beyond, &[false, true]).unwrap().len(), 1);
    let at_end = vec![desc(&b, chunk(2, u64::MAX - 0x100, 0x100), true)];
    let ranges = merge_missing(&at_end, &[false]).unwrap();
    assert_eq!(ranges[0].blob_offset, u64::MAX - 0x100);
    assert_eq!(ranges[0].blob_size, 0x100);
}

#[test]
fn test_chunks_in_range() {
    let chunks: Vec<Chunk> = (0..4).map(|id| chunk(id, 0x100 * id as u64, 0x100)).collect();
    // The chunks lie at 0x0000, 0x1000, 0x2000 and 0x3000, 0x1000 bytes each.
    assert_eq!(chunks_in_range(&chunks, 0, 0x4000), vec![0, 1, 2, 3]);
    assert_eq!(chunks_in_range(&chunks, 0x1000, 0x1000), vec![1]);
    assert_eq!(chunks_in_range(&chunks, 0x0fff, 2), vec![0, 1]);
    assert_eq!(chunks_in_range(&chunks, 0x1fff, 0x1002), vec![1, 2, 3]);
    assert_eq!(chunks_in_range(&chunks, 0x3fff, 0x10000), vec![3]);
    assert_eq!(chunks_in_range(&chunks, 0x4000, 0x1000), Vec::<u32>::new());
    // A range without length touches nothing.
    assert_eq!(chunks_in_range(&chunks, 0x1800, 0), Vec::<u32>::new());
    assert_eq!(chunks_in_range(&chunks, u64::MAX, u64::MAX), Vec::<u32>::new());
    assert_eq!(chunks_in_range(&chunks, 0, u64::MAX), vec![0, 1, 2, 3]);
    let none: Vec<Chunk> = Vec::new();
    assert_eq!(chunks_in_range(&none, 0, 0x1000), Vec::<u32>::new());

    // A chunk without data is touched by no range.
    let mut empty = chunk(9, 0, 0);
    empty.uncompress_offset = 0x800;
    empty.uncompress_size = 0;
    assert_eq!(chunks_in_range(&[empty], 0, 0x1000), Vec::<u32>::new());
    let mut last = chunk(7, 0, 0);
    last.uncompress_offset = u64::MAX - 1;
    last.uncompress_size = 0x1000;
    assert_eq!(chunks_in_range(&[last], u64::MAX - 4, 4), vec![7]);
}
