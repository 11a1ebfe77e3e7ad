use blob_device::chunk::{BlobChunkInfo, BlobIoChunk, BlobV5ChunkInfo, ChunkLayout};
use blob_device::error::StorageError;
use blob_device::features::BlobChunkFlags;
use nydus_utils::digest::RafsDigest;
use std::sync::Arc;

struct MockChunkInfo {
    block_id: RafsDigest,
    blob_index: u32,
    flags: BlobChunkFlags,
    compress_size: u32,
    uncompress_size: u32,
    compress_offset: u64,
    uncompress_offset: u64,
    file_offset: u64,
    index: u32,
}

impl BlobChunkInfo for MockChunkInfo {
    fn view(&self) -> ChunkLayout {
        ChunkLayout {
            digest: self.block_id,
            id: self.index,
            blob_index: self.blob_index,
            compress_offset: self.compress_offset,
            compress_size: self.compress_size,
            uncompress_offset: self.uncompress_offset,
            uncompress_size: self.uncompress_size,
            compressed: self.is_compressed(),
            hole: self.is_hole(),
        }
    }

    fn chunk_id(&self) -> &RafsDigest {
        &self.block_id
    }

    fn id(&self) -> u32 {
        self.index
    }

    fn blob_index(&self) -> u32 {
        self.blob_index
    }

    fn compress_offset(&self) -> u64 {
        self.compress_offset
    }

    fn compress_size(&self) -> u32 {
        self.compress_size
    }

    fn uncompress_offset(&self) -> u64 {
        self.uncompress_offset
    }

    fn uncompress_size(&self) -> u32 {
        self.uncompress_size
    }

    fn is_compressed(&self) -> bool {
        self.flags
            .contains(BlobChunkFlags::from_bits_truncate(blob_device::features::COMPRESSED))
    }

    fn is_hole(&self) -> bool {
        self.flags
            .contains(BlobChunkFlags::from_bits_truncate(blob_device::features::HOLECHUNK))
    }
}

impl BlobV5ChunkInfo for MockChunkInfo {
    fn index(&self) -> u32 {
        self.index
    }

    fn file_offset(&self) -> u64 {
        self.file_offset
    }

    fn flags(&self) -> BlobChunkFlags {
        self.flags
    }
}

fn mock() -> MockChunkInfo {
    MockChunkInfo {
        block_id: Default::default(),
        blob_index: 0,
        flags: Default::default(),
        compress_size: 0x100,
        uncompress_size: 0x200,
        compress_offset: 0x1000,
        uncompress_offset: 0x2000,
        file_offset: 0,
        index: 3,
    }
}

#[test]
fn test_blob_io_chunk() {
    let chunk: Arc<MockChunkInfo> = Arc::new(mock());
    let iochunk: BlobIoChunk<MockChunkInfo> = chunk.clone().into();

    assert_eq!(iochunk.id(), 3);
    assert_eq!(iochunk.compress_offset(), 0x1000);
    assert_eq!(iochunk.compress_size(), 0x100);
    assert_eq!(iochunk.uncompress_offset(), 0x2000);
    assert_eq!(iochunk.uncompress_size(), 0x200);
    assert!(!iochunk.is_compressed());
    assert!(!iochunk.is_hole());
}

#[test]
fn test_blob_io_chunk_digest() {
    let mut with_digest = mock();
    with_digest.block_id = RafsDigest { data: [7u8; 32] };
    let chunk: Arc<MockChunkInfo> = Arc::new(with_digest);
    let base: BlobIoChunk<MockChunkInfo> = chunk.clone().into();
    assert_eq!(base.chunk_id().data, [7u8; 32]);
    assert_eq!(base.chunk_id(), chunk.chunk_id());
    let v5 = BlobIoChunk::V5(chunk);
    assert_eq!(*v5.chunk_id(), RafsDigest { data: [7u8; 32] });
    assert_ne!(*v5.chunk_id(), RafsDigest::default());
}

#[test]
fn test_blob_io_chunk_as_v5() {
    let chunk: Arc<MockChunkInfo> = Arc::new(mock());
    let base: BlobIoChunk<MockChunkInfo> = chunk.clone().into();
    assert!(matches!(base.as_v5(), Err(StorageError::InvalidInput)));
    assert_eq!(base.as_base().id(), 3);

    let v5 = BlobIoChunk::V5(chunk);
    let inner = v5.as_v5().unwrap();
    assert_eq!(inner.index(), 3);
    assert_eq!(inner.file_offset(), 0);
    assert!(inner.flags().is_empty());
    assert_eq!(v5.clone().blob_index(), 0);
}
