use blob_device::cache::ChunkMap;
use blob_device::chunk::{BlobChunkInfo, BlobIoChunk, ChunkLayout};
use blob_device::chunk_state::{ChunkClaim, ChunkState, ChunkStateMap};
use blob_device::error::StorageError;
use nydus_utils::digest::RafsDigest;
use std::sync::Arc;

struct Chunk {
    digest: RafsDigest,
    id: u32,
}

impl BlobChunkInfo for Chunk {
    fn view(&self) -> ChunkLayout {
        ChunkLayout {
            digest: self.digest,
            id: self.id,
            blob_index: 0,
            compress_offset: 0,
            compress_size: 0x100,
            uncompress_offset: 0,
            uncompress_size: 0x100,
            compressed: false,
            hole: false,
        }
    }

    fn chunk_id(&self) -> &RafsDigest {
        &self.digest
    }

    fn id(&self) -> u32 {
        self.id
    }

    fn blob_index(&self) -> u32 {
        0
    }

    fn compress_offset(&self) -> u64 {
        0
    }

    fn compress_size(&self) -> u32 {
        0x100
    }

    fn uncompress_offset(&self) -> u64 {
        0
    }

    fn uncompress_size(&self) -> u32 {
        0x100
    }

    fn is_compressed(&self) -> bool {
        false
    }

    fn is_hole(&self) -> bool {
        false
    }
}

fn states(map: &ChunkStateMap) -> Vec<ChunkState> {
    (0..map.len() as u32).map(|id| map.state(id).unwrap()).collect()
}

#[test]
fn test_chunk_state_new() {
    let map = ChunkStateMap::new(3);
    assert_eq!(map.len(), 3);
    assert_eq!(states(&map), vec![ChunkState::Absent; 3]);
    assert_eq!(map.state(3), None);
    assert_eq!(map.is_chunk_ready(0), Ok(false));
    assert_eq!(map.is_chunk_ready(3), Err(StorageError::InvalidInput));
    assert_eq!(ChunkStateMap::new(0).len(), 0);
}

#[test]
fn test_single_flight() {
    let mut map = ChunkStateMap::new(2);
    // The first reader fetches, the others wait.
    assert_eq!(map.claim(1), Ok(ChunkClaim::Fetch));
    assert_eq!(map.state(1), Some(ChunkState::Fetching));
    assert_eq!(map.claim(1), Ok(ChunkClaim::Wait));
    assert_eq!(map.claim(1), Ok(ChunkClaim::Wait));
    assert_eq!(map.is_chunk_ready(1), Ok(false));
    assert_eq!(map.state(0), Some(ChunkState::Absent));

    assert_eq!(map.settle(1, true), Ok(()));
    assert_eq!(map.state(1), Some(ChunkState::Ready));
    assert_eq!(map.is_chunk_ready(1), Ok(true));
    assert_eq!(map.claim(1), Ok(ChunkClaim::Ready));
    assert_eq!(map.state(1), Some(ChunkState::Ready));

    // A fetch is settled once.
    assert_eq!(map.settle(1, true), Err(StorageError::InvalidInput));
    assert_eq!(map.settle(1, false), Err(StorageError::InvalidInput));
    assert_eq!(map.state(1), Some(ChunkState::Ready));
    assert_eq!(map.settle(0, true), Err(StorageError::InvalidInput));
    assert_eq!(map.state(0), Some(ChunkState::Absent));

    assert_eq!(map.claim(2), Err(StorageError::InvalidInput));
    assert_eq!(map.settle(2, true), Err(StorageError::InvalidInput));
    assert_eq!(states(&map), vec![ChunkState::Absent, ChunkState::Ready]);
}

#[test]
fn test_failed_fetch_is_retried() {
    let mut map = ChunkStateMap::new(1);
    assert_eq!(map.claim(0), Ok(ChunkClaim::Fetch));
    assert_eq!(map.settle(0, false), Ok(()));
    assert_eq!(map.state(0), Some(ChunkState::Absent));
    assert_eq!(map.is_chunk_ready(0), Ok(false));
    // The next reader fetches again.
    assert_eq!(map.claim(0), Ok(ChunkClaim::Fetch));
    assert_eq!(map.settle(0, true), Ok(()));
    assert_eq!(map.is_chunk_ready(0), Ok(true));
}

#[test]
fn test_claim_all() {
    let mut map = ChunkStateMap::new(5);
    assert_eq!(map.claim(1), Ok(ChunkClaim::Fetch));
    assert_eq!(map.claim(3), Ok(ChunkClaim::Fetch));
    assert_eq!(map.settle(3, true), Ok(()));

    // Chunk 1 is fetched by another reader, chunk 3 is ready, and chunk 2
    // is named twice.
    assert_eq!(map.claim_all(&[4, 1, 2, 3, 2]), Ok(vec![4, 2]));
    assert_eq!(
        states(&map),
        vec![
            ChunkState::Absent,
            ChunkState::Fetching,
            ChunkState::Fetching,
            ChunkState::Ready,
            ChunkState::Fetching
        ]
    );
    map.settle_all(&[4, 2], true);
    assert_eq!(
        states(&map),
        vec![
            ChunkState::Absent,
            ChunkState::Fetching,
            ChunkState::Ready,
            ChunkState::Ready,
            ChunkState::Ready
        ]
    );

    // A chunk that the blob does not have leaves the map as it is.
    assert_eq!(map.claim_all(&[0, 5]), Err(StorageError::InvalidInput));
    assert_eq!(map.state(0), Some(ChunkState::Absent));
    assert_eq!(map.claim_all(&[]), Ok(vec![]));
}

#[test]
fn test_warm_twice() {
    let mut map = ChunkStateMap::new(4);
    assert_eq!(map.claim(2), Ok(ChunkClaim::Fetch));
    let ids = [0, 1, 2];

    let fetch = map.claim_all(&ids).unwrap();
    assert_eq!(fetch, vec![0, 1]);
    map.settle_all(&fetch, true);
    let once = states(&map);
    assert_eq!(
        once,
        vec![
            ChunkState::Ready,
            ChunkState::Ready,
            ChunkState::Fetching,
            ChunkState::Absent
        ]
    );

    // The second time there is nothing to fetch, and nothing changes.
    let fetch = map.claim_all(&ids).unwrap();
    assert!(fetch.is_empty());
    map.settle_all(&fetch, true);
    assert_eq!(states(&map), once);
}

#[test]
fn test_settle_all_failed() {
    let mut map = ChunkStateMap::new(3);
    let fetch = map.claim_all(&[0, 2]).unwrap();
    map.settle_all(&fetch, false);
    assert_eq!(states(&map), vec![ChunkState::Absent; 3]);
    // Chunks that are not being fetched, and chunks that the blob does not
    // have, are passed over.
    map.settle_all(&[1, 7], true);
    assert_eq!(states(&map), vec![ChunkState::Absent; 3]);
}

#[test]
fn test_chunk_map_of_states() {
    let mut map = ChunkStateMap::new(2);
    map.claim(1).unwrap();
    map.settle(1, true).unwrap();
    let chunk = |id: u32| {
        BlobIoChunk::from(Arc::new(Chunk {
            digest: RafsDigest::default(),
            id,
        }))
    };
    assert_eq!(ChunkMap::is_ready(&map, &chunk(0)), Ok(false));
    assert_eq!(ChunkMap::is_ready(&map, &chunk(1)), Ok(true));
    assert_eq!(
        ChunkMap::is_ready(&map, &chunk(2)),
        Err(StorageError::InvalidInput)
    );
}
