//! The knowledge-of-exponent proof attached to every contribution.
//!
//! A contribution that rescales the SRS by a fresh secret `s` carries a
//! Schnorr-style proof of knowledge of `s` relative to the previous record's
//! first power `prev_s_g`: the prover commits to `p = z * prev_s_g` for a
//! blinding secret `z`, derives the challenge `h` by Fiat–Shamir over
//! `new_s_g ‖ prev_s_g ‖ p`, and answers `r = z + h * s`.  The verifier
//! accepts iff `r * prev_s_g == p + h * new_s_g` and the base actually
//! moved.  When the commitment is the identity (`z = 0`), the secret is
//! deliberately public and can be recovered as `s = r * h^{-1}`.

use vstd::prelude::*;

use crate::bytes::{bytes_eq, is_zero_bytes};
use crate::curve::{
    fr_add, fr_add_bytes, fr_inv_bytes, fr_invert, fr_mul, fr_mul_bytes, fr_ok, fr_zero, g1_add,
    g1_add_bytes, g1_identity, g1_mul, g1_mul_bytes, g1_ok, zero_bytes,
};
use crate::hash::{h_fs, hash_to_fr};
use crate::secrets::Secret;
use crate::CeremonyError;

verus! {

/// The pair (p, r) of a knowledge-of-exponent proof: a commitment point in
/// G1 and an answer scalar in F_r, both as raw bytes.
#[derive(Clone, Debug)]
pub struct ContributionProof {
    pub p: Vec<u8>,
    pub r: Vec<u8>,
}

impl ContributionProof {
    /// Both fields have the lengths of their raw encodings.
    pub open spec fn wf(self) -> bool {
        self.p@.len() == 64 && self.r@.len() == 32
    }

    /// Both fields are canonical encodings.
    pub open spec fn curve_ok(self) -> bool {
        g1_ok(self.p@) && fr_ok(self.r@)
    }

    /// Field-wise equality of the raw encodings.
    pub open spec fn equiv(self, other: ContributionProof) -> bool {
        self.p@ == other.p@ && self.r@ == other.r@
    }

    pub fn new(p: Vec<u8>, r: Vec<u8>) -> (out: Self)
        ensures
            out.p == p,
            out.r == r,
    {
        ContributionProof { p, r }
    }

    /// Returns the proof's commitment point.
    pub fn p(&self) -> (out: &Vec<u8>)
        ensures
            out == &self.p,
    {
        &self.p
    }

    /// Returns the proof's answer scalar.
    pub fn r(&self) -> (out: &Vec<u8>)
        ensures
            out == &self.r,
    {
        &self.r
    }

    /// Serializes the proof: the commitment's 64 bytes, then the answer's 32.
    pub fn write(&self) -> (out: Vec<u8>)
        requires
            self.wf(),
        ensures
            out@ == self.p@ + self.r@,
            out@.len() == 96,
    {
        let mut out = vstd::slice::slice_to_vec(self.p.as_slice());
        let mut tail = vstd::slice::slice_to_vec(self.r.as_slice());
        out.append(&mut tail);
        out
    }

    /// Reads a proof back from its 96 serialized bytes, checking both
    /// encodings: a non-canonical commitment is `OffCurve`, a
    /// non-canonical answer `Malformed`, anything but 96 bytes `Truncated`.
    pub fn read(bytes: &[u8]) -> (out: Result<ContributionProof, CeremonyError>)
        ensures
            out is Ok <==> bytes@.len() == 96 && g1_ok(bytes@.subrange(0, 64)) && fr_ok(
                bytes@.subrange(64, 96),
            ),
            out matches Ok(pf) ==> pf.wf() && pf.curve_ok() && pf.p@ == bytes@.subrange(0, 64)
                && pf.r@ == bytes@.subrange(64, 96),
            out matches Err(e) ==> e == (if bytes@.len() != 96 {
                CeremonyError::Truncated
            } else if !g1_ok(bytes@.subrange(0, 64)) {
                CeremonyError::OffCurve
            } else {
                CeremonyError::Malformed
            }),
    {
        if bytes.len() != 96 {
            return Err(CeremonyError::Truncated);
        }
        let p = vstd::slice::slice_subrange(bytes, 0, 64);
        if !crate::curve::g1_decode_ok(p) {
            return Err(CeremonyError::OffCurve);
        }
        let r = vstd::slice::slice_subrange(bytes, 64, 96);
        if !crate::curve::fr_decode_ok(r) {
            return Err(CeremonyError::Malformed);
        }
        Ok(ContributionProof {
            p: vstd::slice::slice_to_vec(p),
            r: vstd::slice::slice_to_vec(r),
        })
    }
}

/// The placeholder proof of a genesis contribution: the identity commitment
/// and the zero answer.  It is never checked.
impl Default for ContributionProof {
    fn default() -> (out: Self)
        ensures
            out.p@ == zero_bytes(64),
            out.r@ == zero_bytes(32),
            out.wf(),
            out.curve_ok(),
    {
        ContributionProof { p: g1_identity(), r: fr_zero() }
    }
}

/// The Fiat–Shamir transcript of a proof: the new first power, the previous
/// first power, then the commitment.  The challenge is `h_fs` of this.
pub open spec fn proof_transcript(new_s_g: Seq<u8>, prev_s_g: Seq<u8>, p: Seq<u8>) -> Seq<u8> {
    new_s_g + prev_s_g + p
}

/// The challenge scalar of a proof.
pub open spec fn proof_challenge(new_s_g: Seq<u8>, prev_s_g: Seq<u8>, p: Seq<u8>) -> Seq<u8> {
    h_fs(proof_transcript(new_s_g, prev_s_g, p))
}

/// Whether a proof (p, r) verifies against the previous and new first
/// powers: the base moved, and `r * prev_s_g == p + h * new_s_g` holds for
/// the Fiat–Shamir challenge `h`.
pub open spec fn proof_accepted(prev_s_g: Seq<u8>, new_s_g: Seq<u8>, p: Seq<u8>, r: Seq<u8>) -> bool {
    &&& prev_s_g != new_s_g
    &&& g1_mul_bytes(prev_s_g, r) == g1_add_bytes(
        p,
        g1_mul_bytes(new_s_g, proof_challenge(new_s_g, prev_s_g, p)),
    )
}

/// Concatenates the three transcript parts of a proof.
fn build_proof_transcript(new_s_g: &[u8], prev_s_g: &[u8], p: &[u8]) -> (out: Vec<u8>)
    ensures
        out@ == proof_transcript(new_s_g@, prev_s_g@, p@),
{
    let mut out: Vec<u8> = Vec::new();
    let mut part = vstd::slice::slice_to_vec(new_s_g);
    out.append(&mut part);
    let mut part = vstd::slice::slice_to_vec(prev_s_g);
    out.append(&mut part);
    let mut part = vstd::slice::slice_to_vec(p);
    out.append(&mut part);
    proof {
        assert(out@ =~= new_s_g@ + prev_s_g@ + p@);
    }
    out
}

/// Creates the knowledge-of-exponent proof for a contribution that applied
/// the secret `s` to the previous first power `prev_s_g`, blinded by `z`.
pub fn create_contribution_proof(prev_s_g: &[u8], s: &Secret, z: &Secret) -> (out: ContributionProof)
    requires
        prev_s_g@.len() == 64,
        s.wf(),
        z.wf(),
    ensures
        out.wf(),
        out.p@ == g1_mul_bytes(prev_s_g@, z.value@),
        out.r@ == fr_add_bytes(
            z.value@,
            fr_mul_bytes(
                proof_challenge(g1_mul_bytes(prev_s_g@, s.value@), prev_s_g@, out.p@),
                s.value@,
            ),
        ),
        g1_ok(prev_s_g@) && s.curve_ok() && z.curve_ok() ==> out.curve_ok(),
        g1_ok(prev_s_g@) && z.value@ == zero_bytes(32) ==> out.p@ == zero_bytes(64),
{
    let s_g = g1_mul(prev_s_g, s.value.as_slice());
    let p = g1_mul(prev_s_g, z.value.as_slice());

    let transcript = build_proof_transcript(s_g.as_slice(), prev_s_g, p.as_slice());
    let h = hash_to_fr(transcript.as_slice());

    let hs = fr_mul(h.as_slice(), s.value.as_slice());
    let r = fr_add(z.value.as_slice(), hs.as_slice());

    ContributionProof { p, r }
}

/// Verifies a contribution proof against the previous and new first powers.
/// The result is exactly [`proof_accepted`] of the four raw encodings.
pub fn verify_contribution_proof(prev_s_g: &[u8], new_s_g: &[u8], proof: &ContributionProof) -> (out: bool)
    requires
        prev_s_g@.len() == 64,
        new_s_g@.len() == 64,
        proof.wf(),
    ensures
        out == proof_accepted(prev_s_g@, new_s_g@, proof.p@, proof.r@),
{
    if bytes_eq(prev_s_g, new_s_g) {
        return false;
    }

    let transcript = build_proof_transcript(new_s_g, prev_s_g, proof.p.as_slice());
    let h = hash_to_fr(transcript.as_slice());

    let left = g1_mul(prev_s_g, proof.r.as_slice());
    let h_new = g1_mul(new_s_g, h.as_slice());
    let right = g1_add(proof.p.as_slice(), h_new.as_slice());

    bytes_eq(left.as_slice(), right.as_slice())
}

/// When an accepted proof's commitment is the identity, the blinding was
/// zero on purpose and the applied secret is public: this returns it, as
/// `r * h^{-1}` for the proof's challenge `h`.  It returns `None` exactly
/// when the proof is not accepted, the commitment is not the identity, or
/// the challenge has no inverse.
pub fn recover_public_scalar(prev_s_g: &[u8], new_s_g: &[u8], proof: &ContributionProof) -> (out: Option<Vec<u8>>)
    requires
        prev_s_g@.len() == 64,
        new_s_g@.len() == 64,
        proof.wf(),
    ensures
        ({
            let h = proof_challenge(new_s_g@, prev_s_g@, proof.p@);
            match out {
                Some(s) => {
                    &&& proof_accepted(prev_s_g@, new_s_g@, proof.p@, proof.r@)
                    &&& proof.p@ == zero_bytes(64)
                    &&& s@ == fr_mul_bytes(fr_inv_bytes(h), proof.r@)
                },
                None => {
                    ||| !proof_accepted(prev_s_g@, new_s_g@, proof.p@, proof.r@)
                    ||| proof.p@ != zero_bytes(64)
                    ||| (fr_ok(h) && h == zero_bytes(32))
                },
            }
        }),
{
    if !verify_contribution_proof(prev_s_g, new_s_g, proof) {
        return None;
    }
    if !is_zero_bytes(proof.p.as_slice()) {
        return None;
    }

    let transcript = build_proof_transcript(new_s_g, prev_s_g, proof.p.as_slice());
    let h = hash_to_fr(transcript.as_slice());

    match fr_invert(h.as_slice()) {
        Some(h_inv) => Some(fr_mul(h_inv.as_slice(), proof.r.as_slice())),
        None => None,
    }
}

} // verus!
