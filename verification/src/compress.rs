//! Compression algorithms of blob data.

use vstd::prelude::*;

verus! {

/// The algorithm that compresses the chunks of a blob.
#[derive(Clone, Copy, Debug, PartialEq, Eq, Structural, Hash)]
pub enum Algorithm {
    /// Data is stored as it is.
    Uncompressed,
    /// LZ4 block compression.
    Lz4Block,
    /// Gzip, as used by stargz images.
    GZip,
    /// Zstandard.
    Zstd,
}

impl Algorithm {
    /// The number that stands for the algorithm in blob metadata.
    pub open spec fn spec_code(self) -> u32 {
        match self {
            Algorithm::Uncompressed => 0,
            Algorithm::Lz4Block => 1,
            Algorithm::GZip => 2,
            Algorithm::Zstd => 3,
        }
    }

    /// The algorithm that `code` stands for; `Uncompressed` for a number that stands
    /// for no algorithm.
    pub open spec fn spec_from_code(code: u32) -> Algorithm {
        if code == 1 {
            Algorithm::Lz4Block
        } else if code == 2 {
            Algorithm::GZip
        } else if code == 3 {
            Algorithm::Zstd
        } else {
            Algorithm::Uncompressed
        }
    }

    /// The number that stands for the algorithm in blob metadata.
    pub fn code(self) -> (r: u32)
        ensures
            r == self.spec_code(),
    {
        match self {
            Algorithm::Uncompressed => 0,
            Algorithm::Lz4Block => 1,
            Algorithm::GZip => 2,
            Algorithm::Zstd => 3,
        }
    }

    /// The algorithm that `code` stands for; `Uncompressed` for a number that stands
    /// for no algorithm.
    pub fn from_code(code: u32) -> (r: Algorithm)
        ensures
            r == Algorithm::spec_from_code(code),
    {
        if code == Algorithm::Lz4Block.code() {
            Algorithm::Lz4Block
        } else if code == Algorithm::GZip.code() {
            Algorithm::GZip
        } else if code == Algorithm::Zstd.code() {
            Algorithm::Zstd
        } else {
            Algorithm::Uncompressed
        }
    }

    /// Whether data is stored as it is.
    pub fn is_none(self) -> (r: bool)
        ensures
            r <==> self == Algorithm::Uncompressed,
    {
        self == Algorithm::Uncompressed
    }

    /// Reading a code back gives the algorithm that wrote it.
    pub proof fn lemma_code_round_trip(self)
        ensures
            Algorithm::spec_from_code(self.spec_code()) == self,
    {
    }
}

impl Default for Algorithm {
    fn default() -> (r: Self)
        ensures
            r == Algorithm::Uncompressed,
    {
        Algorithm::Uncompressed
    }
}

} // verus!
