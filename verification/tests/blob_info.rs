use blob_device::blob_info::BlobInfo;
use blob_device::compress;
use blob_device::digest;
use blob_device::features::{
    BlobChunkFlags, BlobFeatures, COMPRESSED, HOLECHUNK, V5_NO_EXT_BLOB_TABLE,
};

fn v5() -> BlobFeatures {
    BlobFeatures::from_bits_truncate(V5_NO_EXT_BLOB_TABLE)
}

#[test]
fn test_blob_info_new() {
    let info = BlobInfo::new(
        1,
        "blob-1".to_string(),
        0x2000,
        0x1000,
        0x100000,
        32,
        BlobFeatures::empty(),
    );
    assert_eq!(info.blob_index(), 1);
    assert_eq!(info.blob_id(), "blob-1");
    assert_eq!(info.uncompressed_size(), 0x2000);
    assert_eq!(info.compressed_size(), 0x1000);
    assert_eq!(info.chunk_size(), 0x100000);
    assert_eq!(info.chunk_count(), 32);
    assert_eq!(info.compressor(), compress::Algorithm::Uncompressed);
    assert_eq!(info.digester(), digest::Algorithm::Blake3);
    assert_eq!(info.readahead_offset(), 0);
    assert_eq!(info.readahead_size(), 0);
    assert!(!info.validate_data());
    assert!(!info.is_stargz());
    assert_eq!(info.meta_flags(), 0);
    assert_eq!(info.meta_ci_offset(), 0);
    assert_eq!(info.meta_ci_compressed_size(), 0);
    assert_eq!(info.meta_ci_uncompressed_size(), 0);
    assert_eq!(info.meta_ci_compressor(), compress::Algorithm::Uncompressed);
    assert!(!info.meta_ci_is_valid());
    assert_eq!(info.get_fscache_file(), None);
    assert!(info.get_features().is_empty());
    assert!(!info.has_feature(v5()));
    assert!(info.has_feature(BlobFeatures::empty()));
}

#[test]
fn test_blob_info_derived_features() {
    // A blob without chunk count belongs to an image without extended blob table.
    let mut info = BlobInfo::new(0, "b".to_string(), 1, 1, 1, 0, BlobFeatures::empty());
    assert_eq!(info.get_features().bits(), V5_NO_EXT_BLOB_TABLE);
    assert!(info.has_feature(v5()));

    info.reset_features();
    assert!(!info.has_feature(v5()));
    assert_eq!(info.get_features(), BlobFeatures::empty());
    info.compute_features();
    assert!(info.has_feature(v5()));
    info.reset_features();
    info.set_features(v5());
    assert!(info.has_feature(v5()));
    info.set_features(BlobFeatures::empty());
    assert!(info.has_feature(v5()));

    let given = BlobInfo::new(0, "b".to_string(), 1, 1, 1, 4, v5());
    assert!(given.has_feature(v5()));
}

#[test]
fn test_blob_info_compressor() {
    let mut info = BlobInfo::new(0, "b".to_string(), 1, 1, 1, 4, BlobFeatures::empty());
    info.set_compressor(compress::Algorithm::Lz4Block);
    assert_eq!(info.compressor(), compress::Algorithm::Lz4Block);
    assert!(!info.is_stargz());
    assert!(info.get_features().is_empty());

    info.set_compressor(compress::Algorithm::GZip);
    assert_eq!(info.compressor(), compress::Algorithm::GZip);
    assert!(info.is_stargz());

    // The setting follows the compressor.
    info.set_compressor(compress::Algorithm::Zstd);
    assert!(!info.is_stargz());
    info.set_compressor(compress::Algorithm::GZip);
    info.set_compressor(compress::Algorithm::Uncompressed);
    assert!(!info.is_stargz());
    info.set_stargz(true);
    assert!(info.is_stargz());
    info.set_stargz(false);
    assert!(!info.is_stargz());
    // A setting by hand lasts until the derived settings are computed again.
    info.set_stargz(true);
    info.compute_features();
    assert!(!info.is_stargz());
    info.set_stargz(true);
    info.set_compressor(compress::Algorithm::Lz4Block);
    assert!(!info.is_stargz());

    info.set_digester(digest::Algorithm::Sha256);
    assert_eq!(info.digester(), digest::Algorithm::Sha256);
}

#[test]
fn test_blob_info_setters() {
    let mut info = BlobInfo::default();
    assert_eq!(info.blob_index(), 0);
    assert_eq!(info.blob_id(), "");
    assert_eq!(info.chunk_count(), 0);
    assert!(info.get_features().is_empty());

    info.set_blob_index(9);
    assert_eq!(info.blob_index(), 9);

    info.set_readahead(0x1000, 0x2000);
    assert_eq!(info.readahead_offset(), 0x1000);
    assert_eq!(info.readahead_size(), 0x2000);
    // Each value is kept in 32 bits.
    info.set_readahead(0x1_0000_0004, 0xffff_ffff_ffff_ffff);
    assert_eq!(info.readahead_offset(), 4);
    assert_eq!(info.readahead_size(), 0xffff_ffff);

    info.enable_data_validation(true);
    assert!(info.validate_data());
    info.enable_data_validation(false);
    assert!(!info.validate_data());

    info.set_fscache_file(Some(7));
    assert_eq!(info.get_fscache_file(), Some(7));
    info.set_fscache_file(None);
    assert_eq!(info.get_fscache_file(), None);

    let copy = info.clone();
    assert_eq!(copy.blob_index(), 9);
    assert_eq!(copy.readahead_offset(), 4);
}

#[test]
fn test_blob_meta_info() {
    let mut info = BlobInfo::new(0, "b".to_string(), 1, 1, 1, 4, BlobFeatures::empty());
    info.set_blob_meta_info(3, 0x1000, 0x200, 0x400, 1);
    assert_eq!(info.meta_flags(), 3);
    assert_eq!(info.meta_ci_offset(), 0x1000);
    assert_eq!(info.meta_ci_compressed_size(), 0x200);
    assert_eq!(info.meta_ci_uncompressed_size(), 0x400);
    assert_eq!(info.meta_ci_compressor(), compress::Algorithm::Lz4Block);
    assert!(info.meta_ci_is_valid());

    info.set_blob_meta_info(0, 0, 0x200, 0x400, 2);
    assert!(!info.meta_ci_is_valid());
    assert_eq!(info.meta_ci_compressor(), compress::Algorithm::GZip);
    info.set_blob_meta_info(0, 0x1000, 0, 0x400, 3);
    assert!(!info.meta_ci_is_valid());
    assert_eq!(info.meta_ci_compressor(), compress::Algorithm::Zstd);
    info.set_blob_meta_info(0, 0x1000, 0x200, 0, 0);
    assert!(!info.meta_ci_is_valid());
    assert_eq!(info.meta_ci_compressor(), compress::Algorithm::Uncompressed);
    info.set_blob_meta_info(0, 0x1000, 0x200, 0x400, 4);
    assert_eq!(info.meta_ci_compressor(), compress::Algorithm::Uncompressed);
}

#[test]
fn test_compress_algorithm_codes() {
    assert_eq!(compress::Algorithm::Uncompressed.code(), 0);
    assert_eq!(compress::Algorithm::Lz4Block.code(), 1);
    assert_eq!(compress::Algorithm::GZip.code(), 2);
    assert_eq!(compress::Algorithm::Zstd.code(), 3);
    for a in [
        compress::Algorithm::Uncompressed,
        compress::Algorithm::Lz4Block,
        compress::Algorithm::GZip,
        compress::Algorithm::Zstd,
    ] {
        assert_eq!(compress::Algorithm::from_code(a.code()), a);
    }
    assert_eq!(
        compress::Algorithm::from_code(u32::MAX),
        compress::Algorithm::Uncompressed
    );
    assert!(compress::Algorithm::Uncompressed.is_none());
    assert!(!compress::Algorithm::GZip.is_none());
    assert_eq!(compress::Algorithm::default(), compress::Algorithm::Uncompressed);
    assert_eq!(digest::Algorithm::default(), digest::Algorithm::Blake3);
    // The codes are those of the compression library.
    assert_eq!(nydus_utils::compress::Algorithm::None as u32, 0);
    assert_eq!(nydus_utils::compress::Algorithm::Lz4Block as u32, 1);
    assert_eq!(nydus_utils::compress::Algorithm::GZip as u32, 2);
    assert_eq!(nydus_utils::compress::Algorithm::Zstd as u32, 3);
}

#[test]
fn test_feature_bits() {
    assert_eq!(BlobFeatures::default().bits(), 0);
    assert!(BlobFeatures::empty().is_empty());
    assert_eq!(BlobFeatures::from_bits_truncate(0xffff_ffff).bits(), 1);
    assert_eq!(BlobFeatures::from_bits_truncate(0xffff_fffe).bits(), 0);
    assert!(v5().contains(BlobFeatures::empty()));
    assert!(v5().contains(v5()));
    assert!(!BlobFeatures::empty().contains(v5()));
    assert_eq!(BlobFeatures::empty().union(v5()), v5());
    assert_eq!(v5().union(v5()).bits(), 1);

    assert_eq!(BlobChunkFlags::default().bits(), 0);
    assert!(BlobChunkFlags::empty().is_empty());
    assert_eq!(BlobChunkFlags::from_bits_truncate(0xffff_ffff).bits(), 3);
    let hole = BlobChunkFlags::from_bits_truncate(HOLECHUNK);
    let compressed = BlobChunkFlags::from_bits_truncate(COMPRESSED);
    assert_eq!(hole.bits(), 2);
    assert_eq!(compressed.bits(), 1);
    assert!(!hole.contains(compressed));
    assert!(BlobChunkFlags::from_bits_truncate(3).contains(hole));
    assert!(BlobChunkFlags::from_bits_truncate(3).contains(compressed));
}
