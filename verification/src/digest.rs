//! Message digest algorithms of blob data.

use vstd::prelude::*;

verus! {

/// The algorithm that computes the digest of a chunk.
#[derive(Clone, Copy, Debug, PartialEq, Eq, Structural, Hash)]
pub enum Algorithm {
    /// BLAKE3.
    Blake3,
    /// SHA-256.
    Sha256,
}

impl Default for Algorithm {
    fn default() -> (r: Self)
        ensures
            r == Algorithm::Blake3,
    {
        Algorithm::Blake3
    }
}

} // verus!
