//! Feature bits of blobs and flag bits of chunks.

use vstd::prelude::*;

verus! {

/// Bit of [`BlobFeatures`]: the image is a v5 image without extended blob table.
pub const V5_NO_EXT_BLOB_TABLE: u32 = 0x0000_0001;

/// Bit of [`BlobChunkFlags`]: the chunk data is compressed.
pub const COMPRESSED: u32 = 0x0000_0001;

/// Bit of [`BlobChunkFlags`]: the chunk is a hole, with all data as zero.
pub const HOLECHUNK: u32 = 0x0000_0002;

/// Feature bits for blob management. The view is the word of bits; only
/// [`V5_NO_EXT_BLOB_TABLE`] can be set.
#[derive(Clone, Copy, Debug, PartialEq, Eq, Structural)]
pub struct BlobFeatures {
    bits: u32,
}

impl BlobFeatures {
    /// The bits of the set.
    pub closed spec fn view(&self) -> u32 {
        self.bits
    }

    /// The type invariant: no bit but the defined one is set.
    #[verifier::type_invariant]
    pub closed spec fn wf(&self) -> bool {
        self.bits & !V5_NO_EXT_BLOB_TABLE == 0
    }

    /// The set without any feature.
    pub fn empty() -> (r: Self)
        ensures
            r@ == 0,
    {
        assert(0u32 & !V5_NO_EXT_BLOB_TABLE == 0) by (bit_vector);
        BlobFeatures { bits: 0 }
    }

    /// The set of the defined features among `bits`; other bits are dropped.
    pub fn from_bits_truncate(bits: u32) -> (r: Self)
        ensures
            r@ == bits & V5_NO_EXT_BLOB_TABLE,
    {
        assert((bits & V5_NO_EXT_BLOB_TABLE) & !V5_NO_EXT_BLOB_TABLE == 0) by (bit_vector);
        BlobFeatures { bits: bits & V5_NO_EXT_BLOB_TABLE }
    }

    /// The word of bits.
    pub fn bits(&self) -> (r: u32)
        ensures
            r == self@,
    {
        self.bits
    }

    /// Whether no feature is set.
    pub fn is_empty(&self) -> (r: bool)
        ensures
            r <==> self@ == 0,
    {
        self.bits == 0
    }

    /// Whether every feature of `other` is in this set.
    pub fn contains(&self, other: BlobFeatures) -> (r: bool)
        ensures
            r <==> self@ & other@ == other@,
    {
        self.bits & other.bits == other.bits
    }

    /// The features of this set together with those of `other`.
    pub fn union(self, other: BlobFeatures) -> (r: Self)
        ensures
            r@ == self@ | other@,
    {
        proof {
            use_type_invariant(&self);
            use_type_invariant(&other);
            let a = self.bits;
            let b = other.bits;
            assert(a & !V5_NO_EXT_BLOB_TABLE == 0 && b & !V5_NO_EXT_BLOB_TABLE == 0 ==> (a | b)
                & !V5_NO_EXT_BLOB_TABLE == 0) by (bit_vector);
        }
        BlobFeatures { bits: self.bits | other.bits }
    }
}

impl Default for BlobFeatures {
    fn default() -> (r: Self)
        ensures
            r@ == 0,
    {
        BlobFeatures::empty()
    }
}

/// Flag bits of a chunk. The view is the word of bits; only [`COMPRESSED`] and
/// [`HOLECHUNK`] can be set.
#[derive(Clone, Copy, Debug, PartialEq, Eq, Structural)]
pub struct BlobChunkFlags {
    bits: u32,
}

impl BlobChunkFlags {
    /// The bits of the set.
    pub closed spec fn view(&self) -> u32 {
        self.bits
    }

    /// The type invariant: no bit but the two defined ones is set.
    #[verifier::type_invariant]
    pub closed spec fn wf(&self) -> bool {
        self.bits & !(COMPRESSED | HOLECHUNK) == 0
    }

    /// The set without any flag.
    pub fn empty() -> (r: Self)
        ensures
            r@ == 0,
    {
        assert(0u32 & !(COMPRESSED | HOLECHUNK) == 0) by (bit_vector);
        BlobChunkFlags { bits: 0 }
    }

    /// The set of the defined flags among `bits`; other bits are dropped.
    pub fn from_bits_truncate(bits: u32) -> (r: Self)
        ensures
            r@ == bits & (COMPRESSED | HOLECHUNK),
    {
        assert((bits & (COMPRESSED | HOLECHUNK)) & !(COMPRESSED | HOLECHUNK) == 0)
            by (bit_vector);
        BlobChunkFlags { bits: bits & (COMPRESSED | HOLECHUNK) }
    }

    /// The word of bits.
    pub fn bits(&self) -> (r: u32)
        ensures
            r == self@,
    {
        self.bits
    }

    /// Whether no flag is set.
    pub fn is_empty(&self) -> (r: bool)
        ensures
            r <==> self@ == 0,
    {
        self.bits == 0
    }

    /// Whether every flag of `other` is in this set.
    pub fn contains(&self, other: BlobChunkFlags) -> (r: bool)
        ensures
            r <==> self@ & other@ == other@,
    {
        self.bits & other.bits == other.bits
    }
}

impl Default for BlobChunkFlags {
    fn default() -> (r: Self)
        ensures
            r@ == 0,
    {
        BlobChunkFlags::empty()
    }
}

} // verus!
