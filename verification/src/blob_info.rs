//! Configuration information of a metadata or data blob.

use crate::compress;
use crate::digest;
use crate::features::{BlobFeatures, V5_NO_EXT_BLOB_TABLE};
use vstd::prelude::*;
use vstd::string::*;

verus! {

/// The mathematical model of a [`BlobInfo`]: the plain values that it holds.
pub struct BlobInfoView {
    /// The index of the blob in the blob table.
    pub blob_index: u32,
    /// The identifier of the blob, a hex digest in general.
    pub blob_id: Seq<char>,
    /// The word of feature bits.
    pub features: u32,
    /// Size of the compressed blob.
    pub compressed_size: u64,
    /// Size of the uncompressed blob, which is the size of the cache file.
    pub uncompressed_size: u64,
    /// Chunk size.
    pub chunk_size: u32,
    /// Number of chunks; zero for an image without extended blob table.
    pub chunk_count: u32,
    /// Compression algorithm of the blob.
    pub compressor: compress::Algorithm,
    /// Message digest algorithm of the blob.
    pub digester: digest::Algorithm,
    /// Start of the range to prefetch.
    pub readahead_offset: u32,
    /// Size of the range to prefetch; zero disables prefetching.
    pub readahead_size: u32,
    /// Whether blob data is validated.
    pub validate_data: bool,
    /// Whether the blob belongs to a stargz image.
    pub stargz: bool,
    /// Flags of the blob metadata.
    pub meta_flags: u32,
    /// Code of the compressor of the chunk information array.
    pub meta_ci_compressor: u32,
    /// Offset of the chunk information array in the compressed blob.
    pub meta_ci_offset: u64,
    /// Size of the compressed chunk information array.
    pub meta_ci_compressed_size: u64,
    /// Size of the uncompressed chunk information array.
    pub meta_ci_uncompressed_size: u64,
    /// Descriptor of the file that the kernel's cache subsystem provides.
    pub fscache_file: Option<i32>,
}

impl BlobInfoView {
    /// The model after the derived settings are brought up to date: a blob
    /// without chunk count has no extended blob table, and a blob belongs to
    /// a stargz image if and only if it is compressed with gzip.
    pub open spec fn with_derived(self) -> BlobInfoView {
        BlobInfoView {
            features: if self.chunk_count == 0 {
                self.features | V5_NO_EXT_BLOB_TABLE
            } else {
                self.features
            },
            stargz: self.compressor == compress::Algorithm::GZip,
            ..self
        }
    }

    /// Whether the location of the chunk information array is given.
    pub open spec fn meta_ci_is_valid(self) -> bool {
        self.meta_ci_offset != 0 && self.meta_ci_compressed_size != 0
            && self.meta_ci_uncompressed_size != 0
    }
}

/// Configuration information for a metadata or data blob: what the storage
/// layer needs to manage the blob and to serve IO requests against it.
#[derive(Debug)]
pub struct BlobInfo {
    blob_index: u32,
    blob_id: String,
    blob_features: BlobFeatures,
    compressed_size: u64,
    uncompressed_size: u64,
    chunk_size: u32,
    chunk_count: u32,
    compressor: compress::Algorithm,
    digester: digest::Algorithm,
    readahead_offset: u32,
    readahead_size: u32,
    validate_data: bool,
    stargz: bool,
    meta_flags: u32,
    meta_ci_compressor: u32,
    meta_ci_offset: u64,
    meta_ci_compressed_size: u64,
    meta_ci_uncompressed_size: u64,
    fs_cache_file: Option<i32>,
}

impl View for BlobInfo {
    type V = BlobInfoView;

    closed spec fn view(&self) -> BlobInfoView {
        BlobInfoView {
            blob_index: self.blob_index,
            blob_id: self.blob_id@,
            features: self.blob_features@,
            compressed_size: self.compressed_size,
            uncompressed_size: self.uncompressed_size,
            chunk_size: self.chunk_size,
            chunk_count: self.chunk_count,
            compressor: self.compressor,
            digester: self.digester,
            readahead_offset: self.readahead_offset,
            readahead_size: self.readahead_size,
            validate_data: self.validate_data,
            stargz: self.stargz,
            meta_flags: self.meta_flags,
            meta_ci_compressor: self.meta_ci_compressor,
            meta_ci_offset: self.meta_ci_offset,
            meta_ci_compressed_size: self.meta_ci_compressed_size,
            meta_ci_uncompressed_size: self.meta_ci_uncompressed_size,
            fscache_file: self.fs_cache_file,
        }
    }
}

impl BlobInfo {
    /// Create the information of a blob. Compression is off, the digest is
    /// BLAKE3, nothing is prefetched or validated, and the derived settings
    /// follow from `chunk_count`.
    pub fn new(
        blob_index: u32,
        blob_id: String,
        uncompressed_size: u64,
        compressed_size: u64,
        chunk_size: u32,
        chunk_count: u32,
        blob_features: BlobFeatures,
    ) -> (r: Self)
        ensures
            r@ == (BlobInfoView {
                blob_index,
                blob_id: blob_id@,
                features: blob_features@,
                compressed_size,
                uncompressed_size,
                chunk_size,
                chunk_count,
                compressor: compress::Algorithm::Uncompressed,
                digester: digest::Algorithm::Blake3,
                readahead_offset: 0,
                readahead_size: 0,
                validate_data: false,
                stargz: false,
                meta_flags: 0,
                meta_ci_compressor: 0,
                meta_ci_offset: 0,
                meta_ci_compressed_size: 0,
                meta_ci_uncompressed_size: 0,
                fscache_file: None,
            }).with_derived(),
    {
        let mut blob_info = BlobInfo {
            blob_index,
            blob_id,
            blob_features,
            uncompressed_size,
            compressed_size,
            chunk_size,
            chunk_count,
            compressor: compress::Algorithm::Uncompressed,
            digester: digest::Algorithm::Blake3,
            readahead_offset: 0,
            readahead_size: 0,
            validate_data: false,
            stargz: false,
            meta_ci_compressor: 0,
            meta_flags: 0,
            meta_ci_offset: 0,
            meta_ci_compressed_size: 0,
            meta_ci_uncompressed_size: 0,
            fs_cache_file: None,
        };
        blob_info.compute_features();
        blob_info
    }

    /// Bring the derived settings up to date.
    pub fn compute_features(&mut self)
        ensures
            final(self)@ == old(self)@.with_derived(),
    {
        if self.chunk_count == 0 {
            self.blob_features = self.blob_features.union(
                BlobFeatures::from_bits_truncate(V5_NO_EXT_BLOB_TABLE),
            );
            assert(V5_NO_EXT_BLOB_TABLE & V5_NO_EXT_BLOB_TABLE == V5_NO_EXT_BLOB_TABLE)
                by (bit_vector);
        }
        self.stargz = self.compressor == compress::Algorithm::GZip;
    }

    /// The feature bits of the blob.
    pub fn get_features(&self) -> (r: BlobFeatures)
        ensures
            r@ == self@.features,
    {
        self.blob_features
    }

    /// Whether all of `features` are available.
    pub fn has_feature(&self, features: BlobFeatures) -> (r: bool)
        ensures
            r <==> self@.features & features@ == features@,
    {
        self.blob_features.bits() & features.bits() == features.bits()
    }

    /// Add `features` to the feature bits of the blob.
    pub fn set_features(&mut self, features: BlobFeatures)
        ensures
            final(self)@ == (BlobInfoView {
                features: old(self)@.features | features@,
                ..old(self)@
            }),
    {
        self.blob_features = self.blob_features.union(features);
    }

    /// Clear the feature bits of the blob.
    pub fn reset_features(&mut self)
        ensures
            final(self)@ == (BlobInfoView { features: 0, ..old(self)@ }),
    {
        self.blob_features = BlobFeatures::empty();
    }

    /// The index of the blob in the blob table.
    pub fn blob_index(&self) -> (r: u32)
        ensures
            r == self@.blob_index,
    {
        self.blob_index
    }

    /// Set the index of the blob.
    pub fn set_blob_index(&mut self, index: u32)
        ensures
            final(self)@ == (BlobInfoView { blob_index: index, ..old(self)@ }),
    {
        self.blob_index = index;
    }

    /// The identifier of the blob.
    pub fn blob_id(&self) -> (r: &str)
        ensures
            r@ == self@.blob_id,
    {
        self.blob_id.as_str()
    }

    /// Size of the compressed blob.
    pub fn compressed_size(&self) -> (r: u64)
        ensures
            r == self@.compressed_size,
    {
        self.compressed_size
    }

    /// Size of the uncompressed blob.
    pub fn uncompressed_size(&self) -> (r: u64)
        ensures
            r == self@.uncompressed_size,
    {
        self.uncompressed_size
    }

    /// Chunk size.
    pub fn chunk_size(&self) -> (r: u32)
        ensures
            r == self@.chunk_size,
    {
        self.chunk_size
    }

    /// Number of chunks in the blob.
    pub fn chunk_count(&self) -> (r: u32)
        ensures
            r == self@.chunk_count,
    {
        self.chunk_count
    }

    /// The compression algorithm of the blob data.
    pub fn compressor(&self) -> (r: compress::Algorithm)
        ensures
            r == self@.compressor,
    {
        self.compressor
    }

    /// Set the compression algorithm and bring the derived settings up to
    /// date: from now on the blob belongs to a stargz image if and only if
    /// `compressor` is gzip.
    pub fn set_compressor(&mut self, compressor: compress::Algorithm)
        ensures
            final(self)@ == (BlobInfoView { compressor, ..old(self)@ }).with_derived(),
            final(self)@.compressor == compressor,
            final(self)@.stargz == (compressor == compress::Algorithm::GZip),
    {
        self.compressor = compressor;
        self.compute_features();
    }

    /// The message digest algorithm of the blob.
    pub fn digester(&self) -> (r: digest::Algorithm)
        ensures
            r == self@.digester,
    {
        self.digester
    }

    /// Set the message digest algorithm of the blob.
    pub fn set_digester(&mut self, digester: digest::Algorithm)
        ensures
            final(self)@ == (BlobInfoView { digester, ..old(self)@ }),
    {
        self.digester = digester;
    }

    /// Start of the range to prefetch.
    pub fn readahead_offset(&self) -> (r: u64)
        ensures
            r == self@.readahead_offset,
    {
        self.readahead_offset as u64
    }

    /// Size of the range to prefetch.
    pub fn readahead_size(&self) -> (r: u64)
        ensures
            r == self@.readahead_size,
    {
        self.readahead_size as u64
    }

    /// Set the range to prefetch; each value is kept in 32 bits. One range
    /// can be set per blob, and a size of zero disables prefetching.
    pub fn set_readahead(&mut self, offset: u64, size: u64)
        ensures
            final(self)@ == (BlobInfoView {
                readahead_offset: offset as u32,
                readahead_size: size as u32,
                ..old(self)@
            }),
    {
        self.readahead_offset = #[verifier::truncate]
        (offset as u32);
        self.readahead_size = #[verifier::truncate]
        (size as u32);
    }

    /// Whether blob data is validated.
    pub fn validate_data(&self) -> (r: bool)
        ensures
            r == self@.validate_data,
    {
        self.validate_data
    }

    /// Switch the validation of blob data on or off.
    pub fn enable_data_validation(&mut self, validate: bool)
        ensures
            final(self)@ == (BlobInfoView { validate_data: validate, ..old(self)@ }),
    {
        self.validate_data = validate;
    }

    /// Whether the blob belongs to a stargz image.
    pub fn is_stargz(&self) -> (r: bool)
        ensures
            r == self@.stargz,
    {
        self.stargz
    }

    /// Set by hand whether the blob belongs to a stargz image. The setting
    /// lasts until the derived settings are next brought up to date.
    pub fn set_stargz(&mut self, stargz: bool)
        ensures
            final(self)@ == (BlobInfoView { stargz, ..old(self)@ }),
    {
        self.stargz = stargz;
    }

    /// Set where the chunk information array lies. A compressed blob holds the
    /// compressed chunk data, then the compressed metadata, then a header.
    pub fn set_blob_meta_info(
        &mut self,
        flags: u32,
        offset: u64,
        compressed_size: u64,
        uncompressed_size: u64,
        compressor: u32,
    )
        ensures
            final(self)@ == (BlobInfoView {
                meta_flags: flags,
                meta_ci_compressor: compressor,
                meta_ci_offset: offset,
                meta_ci_compressed_size: compressed_size,
                meta_ci_uncompressed_size: uncompressed_size,
                ..old(self)@
            }),
    {
        self.meta_ci_compressor = compressor;
        self.meta_flags = flags;
        self.meta_ci_offset = offset;
        self.meta_ci_compressed_size = compressed_size;
        self.meta_ci_uncompressed_size = uncompressed_size;
    }

    /// The compression algorithm of the chunk information array.
    pub fn meta_ci_compressor(&self) -> (r: compress::Algorithm)
        ensures
            r == compress::Algorithm::spec_from_code(self@.meta_ci_compressor),
    {
        compress::Algorithm::from_code(self.meta_ci_compressor)
    }

    /// The flags of the blob metadata.
    pub fn meta_flags(&self) -> (r: u32)
        ensures
            r == self@.meta_flags,
    {
        self.meta_flags
    }

    /// Offset of the chunk information array in the compressed blob.
    pub fn meta_ci_offset(&self) -> (r: u64)
        ensures
            r == self@.meta_ci_offset,
    {
        self.meta_ci_offset
    }

    /// Size of the compressed chunk information array.
    pub fn meta_ci_compressed_size(&self) -> (r: u64)
        ensures
            r == self@.meta_ci_compressed_size,
    {
        self.meta_ci_compressed_size
    }

    /// Size of the uncompressed chunk information array.
    pub fn meta_ci_uncompressed_size(&self) -> (r: u64)
        ensures
            r == self@.meta_ci_uncompressed_size,
    {
        self.meta_ci_uncompressed_size
    }

    /// Whether the location of the chunk information array is given.
    pub fn meta_ci_is_valid(&self) -> (r: bool)
        ensures
            r == self@.meta_ci_is_valid(),
    {
        self.meta_ci_offset != 0 && self.meta_ci_compressed_size != 0
            && self.meta_ci_uncompressed_size != 0
    }

    /// Set the descriptor of the file that the kernel's cache subsystem provides.
    pub fn set_fscache_file(&mut self, file: Option<i32>)
        ensures
            final(self)@ == (BlobInfoView { fscache_file: file, ..old(self)@ }),
    {
        self.fs_cache_file = file;
    }

    /// The descriptor of the file that the kernel's cache subsystem provides.
    pub fn get_fscache_file(&self) -> (r: Option<i32>)
        ensures
            r == self@.fscache_file,
    {
        self.fs_cache_file
    }
}

impl Clone for BlobInfo {
    fn clone(&self) -> (r: Self)
        ensures
            r@ == self@,
    {
        BlobInfo {
            blob_index: self.blob_index,
            blob_id: self.blob_id.clone(),
            blob_features: self.blob_features,
            compressed_size: self.compressed_size,
            uncompressed_size: self.uncompressed_size,
            chunk_size: self.chunk_size,
            chunk_count: self.chunk_count,
            compressor: self.compressor,
            digester: self.digester,
            readahead_offset: self.readahead_offset,
            readahead_size: self.readahead_size,
            validate_data: self.validate_data,
            stargz: self.stargz,
            meta_flags: self.meta_flags,
            meta_ci_compressor: self.meta_ci_compressor,
            meta_ci_offset: self.meta_ci_offset,
            meta_ci_compressed_size: self.meta_ci_compressed_size,
            meta_ci_uncompressed_size: self.meta_ci_uncompressed_size,
            fs_cache_file: self.fs_cache_file,
        }
    }
}

impl Default for BlobInfo {
    fn default() -> (r: Self)
        ensures
            r@ == (BlobInfoView {
                blob_index: 0,
                blob_id: Seq::<char>::empty(),
                features: 0,
                compressed_size: 0,
                uncompressed_size: 0,
                chunk_size: 0,
                chunk_count: 0,
                compressor: compress::Algorithm::Uncompressed,
                digester: digest::Algorithm::Blake3,
                readahead_offset: 0,
                readahead_size: 0,
                validate_data: false,
                stargz: false,
                meta_flags: 0,
                meta_ci_compressor: 0,
                meta_ci_offset: 0,
                meta_ci_compressed_size: 0,
                meta_ci_uncompressed_size: 0,
                fscache_file: None,
            }),
    {
        BlobInfo {
            blob_index: 0,
            blob_id: String::new(),
            blob_features: BlobFeatures::empty(),
            compressed_size: 0,
            uncompressed_size: 0,
            chunk_size: 0,
            chunk_count: 0,
            compressor: compress::Algorithm::Uncompressed,
            digester: digest::Algorithm::Blake3,
            readahead_offset: 0,
            readahead_size: 0,
            validate_data: false,
            stargz: false,
            meta_flags: 0,
            meta_ci_compressor: 0,
            meta_ci_offset: 0,
            meta_ci_compressed_size: 0,
            meta_ci_uncompressed_size: 0,
            fs_cache_file: None,
        }
    }
}

} // verus!
