//! Derivation of the two per-contribution secrets.
//!
//! A contribution needs two scalars: `s`, the factor the SRS is rescaled
//! by, and `z`, the blinding of the knowledge proof.  Both are distilled
//! from an entropy accumulator: the caller absorbs its chosen sources
//! (files, standard input), this module optionally absorbs bytes from the
//! operating system's entropy source, stretches the state by repeated
//! hashing, and extracts each scalar by hashing the state under a one-byte
//! domain tag.  In public-randomness mode `z` is set to zero on purpose, so
//! that the verifier can later recover `s` from the proof.

use vstd::prelude::*;

use crate::curve::{fr_ok, fr_zero, zero_bytes};
use crate::entropy::{absorbed, blake2b_bytes, os_random_bytes, EntropyAccumulator};
use crate::hash::h_fs;
use crate::CeremonyError;

verus! {

/// Domain tag appended to the state before extracting `s` (ASCII 's').
pub const DOMAIN_TAG_S: u8 = 115;

/// Domain tag appended to the state before extracting `z` (ASCII 'z').
pub const DOMAIN_TAG_Z: u8 = 122;

/// Entropy is absorbed in chunks of at most this many bytes (16 MiB).
pub const ENTROPY_CHUNK_LEN: usize = 16 * 1024 * 1024;

/// A secret scalar, kept as its 32 raw bytes.
///
/// Every holder must call [`Secret::zeroize`] once the group operations
/// have consumed the scalar, before the value goes out of scope, as
/// [`crate::contribute::contribute`] does for both of its secrets.  A
/// destructor cannot carry that duty here: the verifier does not admit the
/// vector writes a destructor body would need.
pub struct Secret {
    pub value: Vec<u8>,
}

impl Secret {
    /// The stored scalar has the length of a raw encoding.
    pub open spec fn wf(self) -> bool {
        self.value@.len() == 32
    }

    /// The stored scalar is a canonical encoding.
    pub open spec fn curve_ok(self) -> bool {
        fr_ok(self.value@)
    }

    /// Returns the secret scalar's raw bytes.
    pub fn get(&self) -> (out: &Vec<u8>)
        ensures
            out == &self.value,
    {
        &self.value
    }

    /// Overwrites the stored scalar with zeros.
    pub fn zeroize(&mut self)
        ensures
            final(self).value@ == zero_bytes(old(self).value@.len()),
    {
        let n = self.value.len();
        for i in 0..n
            invariant
                n == self.value@.len(),
                forall|j: int| 0 <= j < i ==> self.value@[j] == 0u8,
        {
            self.value.set(i, 0);
        }
        proof {
            assert(self.value@ =~= zero_bytes(self.value@.len()));
        }
    }
}

/// Which entropy sources a contribution draws from.
#[derive(Debug)]
pub struct SecretsGenConfig {
    /// Paths whose contents are absorbed before derivation; read by the caller.
    pub files_to_hash: Option<Vec<String>>,
    /// Whether standard input is absorbed too; read by the caller.
    pub from_stdin: bool,
    /// How many bytes to draw from the operating system's entropy source.
    pub random_bytes_size: Option<usize>,
    /// How many times the state is re-hashed into itself before extraction.
    pub hash_iterations: Option<u32>,
    /// Public-randomness mode: the blinding `z` is set to zero so the
    /// rescaling factor `s` can be recovered by any verifier.
    pub reveal_s: bool,
}

impl Default for SecretsGenConfig {
    /// The default draws 1 GiB from the operating system and stretches the
    /// state with 2^20 hash iterations.
    fn default() -> (out: Self)
        ensures
            out.files_to_hash is None,
            !out.from_stdin,
            out.random_bytes_size == Some((1024 * 1024 * 1024) as usize),
            out.hash_iterations == Some(1048576u32),
            !out.reveal_s,
    {
        SecretsGenConfig {
            files_to_hash: None,
            from_stdin: false,
            random_bytes_size: Some(1024 * 1024 * 1024),
            hash_iterations: Some(1048576),
            reveal_s: false,
        }
    }
}

/// The accumulator state after `n` rounds of absorbing its own digest.
pub open spec fn iterated_state(base: Seq<u8>, n: nat) -> Seq<u8>
    decreases n,
{
    if n == 0 {
        base
    } else {
        let prev = iterated_state(base, (n - 1) as nat);
        prev + blake2b_bytes(prev)
    }
}

/// The scalar extracted from an accumulator state under a one-byte domain tag.
pub open spec fn extracted_scalar(state: Seq<u8>, tag: u8) -> Seq<u8> {
    h_fs(state + seq![tag])
}

/// The stretched state a derivation reaches when the accumulator held
/// `entropy` and no operating-system randomness was configured.
pub open spec fn derived_phi(entropy: Seq<u8>, config: SecretsGenConfig) -> Seq<u8> {
    let iters = if config.hash_iterations is Some {
        config.hash_iterations.unwrap() as nat
    } else {
        0nat
    };
    iterated_state(entropy, iters)
}

/// The rescaling scalar a deterministic derivation produces.
pub open spec fn derived_s(entropy: Seq<u8>, config: SecretsGenConfig) -> Seq<u8> {
    extracted_scalar(derived_phi(entropy, config), DOMAIN_TAG_S)
}

/// The blinding scalar a deterministic derivation produces: zero in
/// public-randomness mode.
pub open spec fn derived_z(entropy: Seq<u8>, config: SecretsGenConfig) -> Seq<u8> {
    if config.reveal_s {
        zero_bytes(32)
    } else {
        extracted_scalar(derived_phi(entropy, config), DOMAIN_TAG_Z)
    }
}

/// What [`gen_secrets`] promises of the derived pair (s, z), given the
/// entropy the accumulator held when it was handed over.  Without an
/// operating-system source both scalars are pinned exactly; with one, they
/// are the deterministic derivation applied to the caller's entropy
/// followed by the configured number of drawn bytes — whatever those bytes
/// were, the caller's entropy enters the derivation.
pub open spec fn gen_secrets_post(entropy: Seq<u8>, config: SecretsGenConfig, s: Secret, z: Secret) -> bool {
    &&& s.wf()
    &&& s.curve_ok()
    &&& z.wf()
    &&& z.curve_ok()
    &&& config.random_bytes_size is None ==> s.value@ == derived_s(entropy, config)
    &&& config.reveal_s ==> z.value@ == zero_bytes(32)
    &&& config.random_bytes_size is None ==> z.value@ == derived_z(entropy, config)
    &&& config.random_bytes_size matches Some(nb) ==> exists|r: Seq<u8>|
        {
            &&& r.len() == nb
            &&& s.value@ == #[trigger] derived_s(entropy + r, config)
            &&& z.value@ == derived_z(entropy + r, config)
        }
}

/// Absorbs `n` bytes from the operating system's entropy source, in chunks
/// of at most [`ENTROPY_CHUNK_LEN`].  Nothing is assumed about the drawn
/// bytes' values, but on success exactly `n` of them were appended to
/// whatever the accumulator already held; the drawn bytes are handed back
/// as a ghost value so that callers can speak of the mixed state.
fn absorb_os_randomness(acc: &mut EntropyAccumulator, n: usize) -> (out: (
    Result<(), CeremonyError>,
    Ghost<Seq<u8>>,
))
    ensures
        out.0 matches Err(e) ==> e == CeremonyError::EntropyIOError,
        out.0 is Ok ==> out.1@.len() == n && absorbed(*final(acc)) == absorbed(*old(acc))
            + out.1@,
{
    let ghost mut drawn: Seq<u8> = Seq::<u8>::empty();
    proof {
        assert(absorbed(*acc) =~= absorbed(*old(acc)) + drawn);
    }
    let mut remaining: usize = n;
    while remaining > 0
        invariant
            remaining <= n,
            drawn.len() == n - remaining,
            absorbed(*acc) == absorbed(*old(acc)) + drawn,
        decreases remaining,
    {
        let chunk_len = if remaining > ENTROPY_CHUNK_LEN {
            ENTROPY_CHUNK_LEN
        } else {
            remaining
        };
        match os_random_bytes(chunk_len) {
            Some(mut chunk) => {
                acc.absorb(chunk.as_slice());
                proof {
                    assert(absorbed(*acc) =~= absorbed(*old(acc)) + (drawn + chunk@));
                    drawn = drawn + chunk@;
                }
                // The chunk held secret-derived entropy: overwrite it
                // before it is dropped.
                let chunk_held = chunk.len();
                for t in 0..chunk_held
                    invariant
                        chunk_held == chunk@.len(),
                {
                    chunk.set(t, 0);
                }
            },
            None => {
                return (Err(CeremonyError::EntropyIOError), Ghost(drawn));
            },
        }
        remaining = remaining - chunk_len;
    }
    (Ok(()), Ghost(drawn))
}

/// Extracts one scalar from the accumulator state under a domain tag.
fn extract_scalar(acc: &EntropyAccumulator, tag: u8) -> (out: Secret)
    ensures
        out.wf(),
        out.curve_ok(),
        out.value@ == extracted_scalar(absorbed(*acc), tag),
{
    let mut tagged = acc.duplicate();
    let mut tag_buf: Vec<u8> = Vec::new();
    tag_buf.push(tag);
    tagged.absorb(tag_buf.as_slice());
    proof {
        assert(absorbed(tagged) =~= absorbed(*acc) + seq![tag]);
    }
    let mut digest = tagged.digest();
    let value = crate::curve::fr_from_uniform(digest.as_slice());
    // The digest determines the secret: overwrite it before it is dropped.
    let digest_held = digest.len();
    for t in 0..digest_held
        invariant
            digest_held == digest@.len(),
    {
        digest.set(t, 0);
    }
    Secret { value }
}

/// Derives the two secrets (s, z) from an accumulator already holding the
/// caller's entropy, following the configuration: absorb the configured
/// number of bytes from the operating system's entropy source, stretch the
/// state by the configured number of hash iterations, then extract `s`
/// under its domain tag, and `z` under its own — or set `z` to zero in
/// public-randomness mode.
///
/// With no operating-system randomness configured the derivation is a
/// function of the absorbed entropy alone, and the contract pins both
/// scalars exactly.  The only error is `EntropyIOError`, when the
/// operating system's entropy source fails; without such a source
/// configured the derivation always succeeds.
pub fn gen_secrets(acc: EntropyAccumulator, config: &SecretsGenConfig) -> (out: Result<
    (Secret, Secret),
    CeremonyError,
>)
    ensures
        out matches Err(e) ==> e == CeremonyError::EntropyIOError && config.random_bytes_size is Some,
        out matches Ok(sz) ==> gen_secrets_post(absorbed(acc), *config, sz.0, sz.1),
{
    let mut acc = acc;
    let ghost entry = absorbed(acc);
    let ghost mut drawn: Seq<u8> = Seq::<u8>::empty();

    if let Some(n) = config.random_bytes_size {
        let (res, os_drawn) = absorb_os_randomness(&mut acc, n);
        if let Err(e) = res {
            return Err(e);
        }
        proof {
            drawn = os_drawn@;
        }
    }
    let ghost mixed = entry + drawn;
    proof {
        assert(absorbed(acc) =~= mixed);
    }

    if let Some(iterations) = config.hash_iterations {
        let ghost base = absorbed(acc);
        let mut done: u32 = 0;
        while done < iterations
            invariant
                done <= iterations,
                absorbed(acc) == iterated_state(base, done as nat),
            decreases iterations - done,
        {
            let digest = acc.digest();
            acc.absorb(digest.as_slice());
            done = done + 1;
        }
    }
    proof {
        assert(absorbed(acc) == derived_phi(mixed, *config));
    }

    let s = extract_scalar(&acc, DOMAIN_TAG_S);

    let z = if config.reveal_s {
        Secret { value: fr_zero() }
    } else {
        extract_scalar(&acc, DOMAIN_TAG_Z)
    };

    proof {
        assert(s.value@ == derived_s(mixed, *config));
        assert(z.value@ == derived_z(mixed, *config));
        if config.random_bytes_size is Some {
            assert(s.value@ == derived_s(entry + drawn, *config));
            assert(z.value@ == derived_z(entry + drawn, *config));
        }
    }
    Ok((s, z))
}

} // verus!
