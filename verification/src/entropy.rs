//! Streaming entropy accumulation and randomness.
//!
//! The accumulator wraps a Blake2b-512 hasher of the `blake2` crate.  To the
//! verified code the hasher is the byte string it has absorbed so far, named
//! by the uninterpreted spec function [`absorbed`]; the digest of a byte
//! string is named by [`blake2b_bytes`].

use vstd::prelude::*;

use blake2::digest::Digest;
use blake2::Blake2b512;
use rand::RngCore;

verus! {

/// A Blake2b-512 hasher, seen by the verified code as the byte string it
/// has absorbed.
#[verifier::external_body]
pub struct EntropyAccumulator {
    hasher: Blake2b512,
}

/// The byte string an accumulator has absorbed since it was created.
pub uninterp spec fn absorbed(acc: EntropyAccumulator) -> Seq<u8>;

/// The 64-byte Blake2b-512 digest of a byte string.
pub uninterp spec fn blake2b_bytes(m: Seq<u8>) -> Seq<u8>;

impl EntropyAccumulator {
    /// Relies on `Blake2b512::new` of the `blake2` crate: a fresh hasher has
    /// absorbed nothing.
    #[verifier::external_body]
    pub fn new() -> (r: Self)
        ensures
            absorbed(r) == Seq::<u8>::empty(),
    {
        EntropyAccumulator { hasher: Blake2b512::new() }
    }

    /// Relies on `Digest::update` of the `blake2` crate: absorbing appends
    /// the data to the absorbed byte string.
    #[verifier::external_body]
    pub fn absorb(&mut self, data: &[u8])
        ensures
            absorbed(*final(self)) == absorbed(*old(self)) + data@,
    {
        self.hasher.update(data);
    }

    /// Relies on `Clone` of the `blake2` hasher: the copy has absorbed the
    /// same byte string.
    #[verifier::external_body]
    pub fn duplicate(&self) -> (r: Self)
        ensures
            absorbed(r) == absorbed(*self),
    {
        EntropyAccumulator { hasher: self.hasher.clone() }
    }

    /// Relies on `Digest::finalize` of the `blake2` crate: the digest is a
    /// function of the absorbed byte string alone, 64 bytes long.  The
    /// hasher is cloned, so the accumulator itself is unchanged.
    #[verifier::external_body]
    pub fn digest(&self) -> (r: Vec<u8>)
        ensures
            r@ == blake2b_bytes(absorbed(*self)),
            r@.len() == 64,
    {
        self.hasher.clone().finalize().to_vec()
    }
}

/// Relies on `OsRng::try_fill_bytes` of the `rand` crate: on success the
/// buffer holds `n` bytes from the operating system's entropy source;
/// nothing is assumed about their values.
#[verifier::external_body]
pub fn os_random_bytes(n: usize) -> (r: Option<Vec<u8>>)
    ensures
        r is Some ==> r.unwrap()@.len() == n,
{
    let mut buf = vec![0u8; n];
    match rand::rngs::OsRng.try_fill_bytes(&mut buf) {
        Ok(()) => Some(buf),
        Err(_) => None,
    }
}

} // verus!
