//! The Fiat–Shamir hash into the scalar field.
//!
//! Arbitrary bytes are fed to Blake2b-512 and the 64-byte digest is reduced
//! into F_r by the uniform-bytes mapping.  Both the proof engine and the SRS
//! verifier state their transcripts over [`h_fs`].

use vstd::prelude::*;

use crate::curve::{fr_from_uniform, fr_ok, fr_uniform_bytes};
use crate::entropy::{absorbed, blake2b_bytes, EntropyAccumulator};

verus! {

/// The Fiat–Shamir hash of a byte string: its Blake2b-512 digest, reduced
/// into F_r by the uniform-bytes mapping.  The result is a canonical raw
/// scalar of 32 bytes.
pub open spec fn h_fs(m: Seq<u8>) -> Seq<u8> {
    fr_uniform_bytes(blake2b_bytes(m))
}

/// Maps arbitrary bytes into a scalar of F_r, as [`h_fs`] describes.
pub fn hash_to_fr(data: &[u8]) -> (r: Vec<u8>)
    ensures
        r@ == h_fs(data@),
        r@.len() == 32,
        fr_ok(r@),
{
    let mut acc = EntropyAccumulator::new();
    acc.absorb(data);
    proof {
        assert(absorbed(acc) =~= data@);
    }
    let d = acc.digest();
    fr_from_uniform(d.as_slice())
}

} // verus!
