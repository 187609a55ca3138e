//! A multi-party trusted-setup ceremony for a KZG polynomial-commitment
//! scheme over the bn256 pairing curve.
//!
//! Successive participants each apply a secret scalar to a structured
//! reference string (SRS), producing a new SRS together with a
//! knowledge-of-exponent proof binding the contribution to the previous one.
//! Anyone can later verify the whole chain.
//!
//! Group elements and scalars travel through this crate as their raw byte
//! encodings (coordinates in Montgomery form, little-endian), so that the
//! byte layout, chain linkage and transcript order are all verified; the
//! curve arithmetic itself is delegated to `halo2curves` behind a small set
//! of trusted wrappers.

use vstd::prelude::*;

pub mod bytes;
pub mod check;
pub mod contribute;
pub mod contribution;
pub mod curve;
pub mod entropy;
pub mod finalize;
pub mod hash;
pub mod ppot;
pub mod proofs;
pub mod secrets;
pub mod utils;

verus! {

/// log2 of the ceremony SRS size: every contribution of a given ceremony
/// carries this `k`, and its `g` vector holds `1 << k` points.
pub const CONTRIBUTION_K: u32 = 28;

/// Number of G1 points of a contribution: `1 << CONTRIBUTION_K`.
pub const CONTRIBUTION_N: usize = 1 << CONTRIBUTION_K;

/// File extension of contribution files.
pub const CONTRIBUTION_EXTENSION: &'static str = "csrs";

/// Everything fatal that a ceremony command can run into.
#[derive(Clone, Copy, Debug, PartialEq, Eq, Structural)]
pub enum CeremonyError {
    /// The contributions directory holds no contribution at all.
    NoContributions,
    /// Two contribution files report the same embedded id.
    DuplicateId,
    /// A contribution file is inconsistent in some other way.
    Malformed,
    /// A contribution file ends before its announced content does.
    Truncated,
    /// A contribution file was written for a different ceremony size.
    WrongK,
    /// A deserialized point failed the on-curve check.
    OffCurve,
    /// An SRS failed one of the structural or algebraic checks.
    InvalidSRS,
    /// A contribution proof failed to verify.
    InvalidProof,
    /// An imported challenge was computed for a smaller size than the ceremony needs.
    ChallengeTooSmall,
    /// An imported challenge could not be read in full.
    ChallengeIOError,
    /// A configured entropy source failed mid-read.
    EntropyIOError,
    /// The target output path already exists.
    WouldOverwrite,
}

} // verus!
