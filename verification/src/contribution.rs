//! One contribution record: an SRS, its knowledge proof and its id, with
//! the exact byte layout it is stored under.
//!
//! The layout, little-endian and without framing or padding, is: `k` (4
//! bytes), the `n = 1 << k` G1 points of `g` (64 bytes each), `g2` (128
//! bytes), `s_g2` (128 bytes), the proof's commitment `p` (64 bytes) and
//! answer `r` (32 bytes), then `id` (4 bytes).  Reading checks `k` against
//! the ceremony's value, the length against the announced one, and every
//! point and scalar against its canonical encoding.

use vstd::prelude::*;

use vstd::bytes::{spec_u32_from_le_bytes, spec_u32_to_le_bytes, u32_from_le_bytes, u32_to_le_bytes};
use vstd::slice::{slice_subrange, slice_to_vec};

use crate::bytes::bytes_eq;
use crate::curve::{fr_ok, g1_decode_ok, g1_generator, g1_ok, g2_decode_ok, g2_generator, g2_ok,
    fr_decode_ok, generator_bytes, zero_bytes};
use crate::proofs::ContributionProof;
use crate::CeremonyError;

verus! {

/// The number of G1 points of a contribution with the given `k`.
pub open spec fn spec_n(k: u32) -> int {
    (1u64 << k) as int
}

/// Byte offset of `g2` in a record with `n` points.
pub open spec fn g2_off(n: int) -> int {
    4 + 64 * n
}

/// Byte offset of `s_g2` in a record with `n` points.
pub open spec fn s_g2_off(n: int) -> int {
    4 + 64 * n + 128
}

/// Byte offset of the proof commitment in a record with `n` points.
pub open spec fn p_off(n: int) -> int {
    4 + 64 * n + 256
}

/// Byte offset of the proof answer in a record with `n` points.
pub open spec fn r_off(n: int) -> int {
    4 + 64 * n + 320
}

/// Byte offset of `id` in a record with `n` points.
pub open spec fn id_off(n: int) -> int {
    4 + 64 * n + 352
}

/// Total byte size of a record with `n` points.
pub open spec fn total_size(n: int) -> int {
    4 + 64 * n + 356
}

/// Total byte size of a record with the given `k`.
pub open spec fn spec_size(k: u32) -> int {
    total_size(spec_n(k))
}

/// A contribution: `k`, the `n = 1 << k` G1 points `g[i] = s^i * g1`, the
/// G2 generator, the first G2 power `s_g2 = s * g2`, the knowledge proof,
/// and the monotonically increasing id.  All group elements are raw bytes.
#[derive(Clone, Debug)]
pub struct KZGContribution {
    pub k: u32,
    pub n: usize,
    pub g: Vec<Vec<u8>>,
    pub g2: Vec<u8>,
    pub s_g2: Vec<u8>,
    pub proof: ContributionProof,
    pub id: u32,
}

impl KZGContribution {
    /// The `g` vector as a sequence of raw point encodings.
    pub open spec fn g_seq(self) -> Seq<Seq<u8>> {
        self.g@.map_values(|v: Vec<u8>| v@)
    }

    /// Structural well-formedness: `k` small enough for `n = 1 << k` to be
    /// representable, the announced lengths all present.
    pub open spec fn wf(self) -> bool {
        &&& self.k <= 31
        &&& self.n as int == spec_n(self.k)
        &&& self.g@.len() == self.n
        &&& forall|i: int| 0 <= i < self.g@.len() ==> (#[trigger] self.g@[i])@.len() == 64
        &&& self.g2@.len() == 128
        &&& self.s_g2@.len() == 128
        &&& self.proof.wf()
    }

    /// Every group element and scalar of the record is a canonical
    /// encoding: coordinates below the modulus, points on the curve or the
    /// identity.
    pub open spec fn curve_ok(self) -> bool {
        &&& forall|i: int| 0 <= i < self.g@.len() ==> g1_ok((#[trigger] self.g@[i])@)
        &&& g2_ok(self.g2@)
        &&& g2_ok(self.s_g2@)
        &&& self.proof.curve_ok()
    }

    /// Field-wise equality of two records, over the raw encodings.
    pub open spec fn equiv(self, other: KZGContribution) -> bool {
        &&& self.k == other.k
        &&& self.n == other.n
        &&& self.g_seq() == other.g_seq()
        &&& self.g2@ == other.g2@
        &&& self.s_g2@ == other.s_g2@
        &&& self.proof.equiv(other.proof)
        &&& self.id == other.id
    }
}

/// Whether `bytes` is exactly the serialized form of the record `c`.
pub open spec fn is_encoding(bytes: Seq<u8>, c: KZGContribution) -> bool {
    let n = c.g@.len() as int;
    &&& bytes.len() == total_size(n)
    &&& bytes.subrange(0, 4) == spec_u32_to_le_bytes(c.k)
    &&& forall|i: int| 0 <= i < n ==> (#[trigger] c.g@[i])@ == bytes.subrange(
        4 + 64 * i,
        4 + 64 * i + 64,
    )
    &&& c.g2@ == bytes.subrange(g2_off(n), g2_off(n) + 128)
    &&& c.s_g2@ == bytes.subrange(s_g2_off(n), s_g2_off(n) + 128)
    &&& c.proof.p@ == bytes.subrange(p_off(n), p_off(n) + 64)
    &&& c.proof.r@ == bytes.subrange(r_off(n), r_off(n) + 32)
    &&& bytes.subrange(id_off(n), id_off(n) + 4) == spec_u32_to_le_bytes(c.id)
}

/// Whether the first four bytes announce the ceremony's `k`.
pub open spec fn header_matches(bytes: Seq<u8>, ceremony_k: u32) -> bool {
    bytes.len() >= 4 && spec_u32_from_le_bytes(bytes.subrange(0, 4)) == ceremony_k
}

/// Whether every point of an encoded record with `n` points is canonical.
pub open spec fn points_ok(bytes: Seq<u8>, n: int) -> bool {
    &&& forall|i: int| 0 <= i < n ==> g1_ok(#[trigger] bytes.subrange(4 + 64 * i, 4 + 64 * i + 64))
    &&& g2_ok(bytes.subrange(g2_off(n), g2_off(n) + 128))
    &&& g2_ok(bytes.subrange(s_g2_off(n), s_g2_off(n) + 128))
    &&& g1_ok(bytes.subrange(p_off(n), p_off(n) + 64))
}

/// Whether reading `bytes` as a record of the ceremony with `ceremony_k`
/// succeeds: right `k`, exact length, every point and the proof scalar
/// canonical.
pub open spec fn parse_ok(bytes: Seq<u8>, ceremony_k: u32) -> bool {
    let n = spec_n(ceremony_k);
    &&& header_matches(bytes, ceremony_k)
    &&& bytes.len() == total_size(n)
    &&& points_ok(bytes, n)
    &&& fr_ok(bytes.subrange(r_off(n), r_off(n) + 32))
}

/// Which error reading `bytes` reports when it fails.
pub open spec fn parse_err(bytes: Seq<u8>, ceremony_k: u32) -> CeremonyError {
    let n = spec_n(ceremony_k);
    if bytes.len() < 4 {
        CeremonyError::Truncated
    } else if !header_matches(bytes, ceremony_k) {
        CeremonyError::WrongK
    } else if bytes.len() < total_size(n) {
        CeremonyError::Truncated
    } else if bytes.len() > total_size(n) {
        CeremonyError::Malformed
    } else if !points_ok(bytes, n) {
        CeremonyError::OffCurve
    } else {
        CeremonyError::Malformed
    }
}

/// A subrange of a concatenation that ends inside the first part equals the
/// same subrange of the first part.
proof fn lemma_concat_prefix_subrange(a: Seq<u8>, b: Seq<u8>, i: int, j: int)
    requires
        0 <= i <= j <= a.len(),
    ensures
        (a + b).subrange(i, j) == a.subrange(i, j),
{
    assert((a + b).subrange(i, j) =~= a.subrange(i, j));
}

/// The subrange of a concatenation that covers the second part is the
/// second part.
proof fn lemma_concat_suffix(a: Seq<u8>, b: Seq<u8>)
    ensures
        (a + b).subrange(a.len() as int, a.len() + b.len() as int) == b,
{
    assert((a + b).subrange(a.len() as int, a.len() + b.len() as int) =~= b);
}

/// Appends a copy of `block` to `out`.
fn append_block(out: &mut Vec<u8>, block: &[u8])
    ensures
        final(out)@ == old(out)@ + block@,
{
    let mut tmp = slice_to_vec(block);
    out.append(&mut tmp);
}

impl KZGContribution {
    /// Builds a record from its parts; `n` is computed as `1 << k`.
    pub fn from_parts(
        k: u32,
        g: Vec<Vec<u8>>,
        g2: Vec<u8>,
        s_g2: Vec<u8>,
        proof: ContributionProof,
        id: u32,
    ) -> (out: Self)
        requires
            k <= 31,
        ensures
            out.k == k,
            out.n as int == spec_n(k),
            out.g == g,
            out.g2 == g2,
            out.s_g2 == s_g2,
            out.proof == proof,
            out.id == id,
    {
        proof {
            assert(1u64 << k <= 0x80000000u64) by (bit_vector)
                requires
                    k <= 31u32,
            ;
        }
        let n64: u64 = 1u64 << k;
        let n: usize = n64 as usize;
        KZGContribution { k, n, g, g2, s_g2, proof, id }
    }

    /// The genesis record of a ceremony of size `k`: every power of `g` is
    /// the G1 generator, both G2 elements are the G2 generator, the proof
    /// is the unchecked placeholder and the id is zero.
    pub fn genesis(k: u32) -> (out: Self)
        requires
            k <= 31,
        ensures
            out.wf(),
            out.curve_ok(),
            out.k == k,
            out.id == 0,
            forall|i: int| 0 <= i < out.g@.len() ==> (#[trigger] out.g@[i])@ == generator_bytes(false),
            out.g2@ == generator_bytes(true),
            out.s_g2@ == generator_bytes(true),
            out.proof.p@ == zero_bytes(64),
            out.proof.r@ == zero_bytes(32),
    {
        proof {
            assert(1u64 << k <= 0x80000000u64) by (bit_vector)
                requires
                    k <= 31u32,
            ;
        }
        let n64: u64 = 1u64 << k;
        let n: usize = n64 as usize;

        let mut g: Vec<Vec<u8>> = Vec::new();
        for i in 0..n
            invariant
                g@.len() == i,
                forall|j: int| 0 <= j < i ==> (#[trigger] g@[j])@ == generator_bytes(false),
                forall|j: int| 0 <= j < i ==> (#[trigger] g@[j])@.len() == 64,
                forall|j: int| 0 <= j < i ==> g1_ok((#[trigger] g@[j])@),
        {
            g.push(g1_generator());
        }

        let g2 = g2_generator();
        let s_g2 = g2_generator();
        let proof = ContributionProof::default();

        KZGContribution { k, n, g, g2, s_g2, proof, id: 0 }
    }

    /// Returns the record's `k`.
    pub fn k(&self) -> (out: u32)
        ensures
            out == self.k,
    {
        self.k
    }

    /// Returns `n = 1 << k`.
    pub fn n(&self) -> (out: usize)
        ensures
            out == self.n,
    {
        self.n
    }

    /// Returns the record's G1 points.
    pub fn g(&self) -> (out: &Vec<Vec<u8>>)
        ensures
            out == &self.g,
    {
        &self.g
    }

    /// Returns the record's G2 generator.
    pub fn g2(&self) -> (out: &Vec<u8>)
        ensures
            out == &self.g2,
    {
        &self.g2
    }

    /// Returns the first power of the secret on G1.
    pub fn s_g(&self) -> (out: &Vec<u8>)
        requires
            self.g@.len() >= 2,
        ensures
            out == &self.g@[1],
    {
        &self.g[1]
    }

    /// Returns the first power of the secret on G2.
    pub fn s_g2(&self) -> (out: &Vec<u8>)
        ensures
            out == &self.s_g2,
    {
        &self.s_g2
    }

    /// Returns the record's id.
    pub fn id(&self) -> (out: u32)
        ensures
            out == self.id,
    {
        self.id
    }

    /// Returns the record's knowledge proof.
    pub fn knowledge_proof(&self) -> (out: &ContributionProof)
        ensures
            out == &self.proof,
    {
        &self.proof
    }

    /// Serializes the record into the byte layout described above.
    pub fn write_custom(&self) -> (out: Vec<u8>)
        requires
            self.wf(),
        ensures
            out@.len() == total_size(self.g@.len() as int),
            is_encoding(out@, *self),
    {
        let mut out = u32_to_le_bytes(self.k);
        let n = self.g.len();
        proof {
            assert(out@.subrange(0, 4) =~= out@);
        }

        for i in 0..n
            invariant
                self.wf(),
                n == self.g@.len(),
                out@.len() == 4 + 64 * i,
                out@.subrange(0, 4) == spec_u32_to_le_bytes(self.k),
                forall|j: int| 0 <= j < i ==> (#[trigger] self.g@[j])@ == out@.subrange(
                    4 + 64 * j,
                    4 + 64 * j + 64,
                ),
        {
            let ghost before = out@;
            append_block(&mut out, self.g[i].as_slice());
            proof {
                lemma_concat_prefix_subrange(before, self.g@[i as int]@, 0, 4);
                lemma_concat_suffix(before, self.g@[i as int]@);
                assert forall|j: int| 0 <= j < i + 1 implies (#[trigger] self.g@[j])@
                    == out@.subrange(4 + 64 * j, 4 + 64 * j + 64) by {
                    if j < i {
                        lemma_concat_prefix_subrange(before, self.g@[i as int]@, 4 + 64 * j, 4 + 64 * j + 64);
                    }
                }
            }
        }

        let ghost base = out@;
        append_block(&mut out, self.g2.as_slice());
        append_block(&mut out, self.s_g2.as_slice());
        append_block(&mut out, self.proof.p.as_slice());
        append_block(&mut out, self.proof.r.as_slice());
        let mut id_bytes = u32_to_le_bytes(self.id);
        out.append(&mut id_bytes);

        proof {
            let n = self.g@.len() as int;
            assert(out@ =~= base + self.g2@ + self.s_g2@ + self.proof.p@ + self.proof.r@
                + spec_u32_to_le_bytes(self.id));
            let whole = out@;
            assert(whole.subrange(0, 4) =~= base.subrange(0, 4));
            assert forall|j: int| 0 <= j < n implies (#[trigger] self.g@[j])@ == whole.subrange(
                4 + 64 * j,
                4 + 64 * j + 64,
            ) by {
                assert(whole.subrange(4 + 64 * j, 4 + 64 * j + 64) =~= base.subrange(
                    4 + 64 * j,
                    4 + 64 * j + 64,
                ));
            }
            assert(whole.subrange(g2_off(n), g2_off(n) + 128) =~= self.g2@);
            assert(whole.subrange(s_g2_off(n), s_g2_off(n) + 128) =~= self.s_g2@);
            assert(whole.subrange(p_off(n), p_off(n) + 64) =~= self.proof.p@);
            assert(whole.subrange(r_off(n), r_off(n) + 32) =~= self.proof.r@);
            assert(whole.subrange(id_off(n), id_off(n) + 4) =~= spec_u32_to_le_bytes(self.id));
        }

        out
    }

    /// Reads a record of the ceremony with `ceremony_k` from its exact
    /// serialized bytes.  Succeeds precisely on [`parse_ok`] inputs; on
    /// failure the error is [`parse_err`]: a wrong announced `k` is
    /// `WrongK`, a short buffer `Truncated`, a long one `Malformed`, a
    /// non-canonical point `OffCurve` and a non-canonical proof scalar
    /// `Malformed`.
    pub fn read_custom(bytes: &[u8], ceremony_k: u32) -> (out: Result<KZGContribution, CeremonyError>)
        requires
            ceremony_k <= 31,
        ensures
            out is Ok <==> parse_ok(bytes@, ceremony_k),
            out matches Ok(c) ==> is_encoding(bytes@, c) && c.wf() && c.curve_ok() && c.k
                == ceremony_k && c.id == spec_u32_from_le_bytes(
                bytes@.subrange(id_off(spec_n(ceremony_k)), id_off(spec_n(ceremony_k)) + 4),
            ),
            out matches Err(e) ==> e == parse_err(bytes@, ceremony_k),
    {
        let blen = bytes.len();
        if blen < 4 {
            return Err(CeremonyError::Truncated);
        }
        let k = u32_from_le_bytes(slice_subrange(bytes, 0, 4));
        if k != ceremony_k {
            return Err(CeremonyError::WrongK);
        }

        proof {
            assert(1u64 << ceremony_k <= 0x80000000u64) by (bit_vector)
                requires
                    ceremony_k <= 31u32,
            ;
        }
        let n64: u64 = 1u64 << ceremony_k;
        let n: usize = n64 as usize;
        let needed64: u64 = 360 + 64 * n64;

        if (blen as u64) < needed64 {
            return Err(CeremonyError::Truncated);
        }
        if (blen as u64) > needed64 {
            return Err(CeremonyError::Malformed);
        }
        proof {
            assert(blen as int == total_size(n as int));
        }

        let mut g: Vec<Vec<u8>> = Vec::new();
        for i in 0..n
            invariant
                n as int == spec_n(ceremony_k),
                blen == bytes@.len(),
                blen as int == total_size(n as int),
                header_matches(bytes@, ceremony_k),
                g@.len() == i,
                forall|j: int| 0 <= j < i ==> (#[trigger] g@[j])@ == bytes@.subrange(
                    4 + 64 * j,
                    4 + 64 * j + 64,
                ),
                forall|j: int| 0 <= j < i ==> g1_ok((#[trigger] g@[j])@),
                forall|j: int| 0 <= j < i ==> (#[trigger] g@[j])@.len() == 64,
        {
            let off = 4 + 64 * i;
            let pt = slice_subrange(bytes, off, off + 64);
            if !g1_decode_ok(pt) {
                proof {
                    assert(!g1_ok(bytes@.subrange(4 + 64 * (i as int), 4 + 64 * (i as int) + 64)));
                    assert(!points_ok(bytes@, n as int));
                }
                return Err(CeremonyError::OffCurve);
            }
            g.push(slice_to_vec(pt));
        }

        let off_g2 = 4 + 64 * n;
        let g2 = slice_subrange(bytes, off_g2, off_g2 + 128);
        if !g2_decode_ok(g2) {
            proof {
                assert(!points_ok(bytes@, n as int));
            }
            return Err(CeremonyError::OffCurve);
        }
        let s_g2 = slice_subrange(bytes, off_g2 + 128, off_g2 + 256);
        if !g2_decode_ok(s_g2) {
            proof {
                assert(!points_ok(bytes@, n as int));
            }
            return Err(CeremonyError::OffCurve);
        }
        let p = slice_subrange(bytes, off_g2 + 256, off_g2 + 320);
        if !g1_decode_ok(p) {
            proof {
                assert(!points_ok(bytes@, n as int));
            }
            return Err(CeremonyError::OffCurve);
        }

        proof {
            assert forall|j: int| 0 <= j < n as int implies g1_ok(
                #[trigger] bytes@.subrange(4 + 64 * j, 4 + 64 * j + 64),
            ) by {
                assert(g@[j]@ == bytes@.subrange(4 + 64 * j, 4 + 64 * j + 64));
                assert(g1_ok(g@[j]@));
            }
            assert(points_ok(bytes@, n as int));
        }

        let r = slice_subrange(bytes, off_g2 + 320, off_g2 + 352);
        if !fr_decode_ok(r) {
            return Err(CeremonyError::Malformed);
        }
        let id = u32_from_le_bytes(slice_subrange(bytes, off_g2 + 352, off_g2 + 356));

        let proof = ContributionProof { p: slice_to_vec(p), r: slice_to_vec(r) };
        let out = KZGContribution {
            k: ceremony_k,
            n,
            g,
            g2: slice_to_vec(g2),
            s_g2: slice_to_vec(s_g2),
            proof,
            id,
        };
        proof {
            vstd::bytes::lemma_auto_spec_u32_to_from_le_bytes();
            assert(bytes@.subrange(0, 4).len() == 4);
            assert(bytes@.subrange(id_off(n as int), id_off(n as int) + 4).len() == 4);
            assert(parse_ok(bytes@, ceremony_k));
            assert(is_encoding(bytes@, out));
        }
        Ok(out)
    }
}

/// Round-trip law, first half: the byte layout determines the record.  Two
/// well-formed records serialized to the same bytes are field-wise equal,
/// so reading back what [`KZGContribution::write_custom`] wrote can yield
/// nothing but an equal record.
proof fn lemma_u32_le_bytes_injective(a: u32, b: u32)
    requires
        spec_u32_to_le_bytes(a) == spec_u32_to_le_bytes(b),
    ensures
        a == b,
{
    vstd::bytes::lemma_auto_spec_u32_to_from_le_bytes();
    assert(spec_u32_to_le_bytes(a).len() == 4);
    assert(spec_u32_from_le_bytes(spec_u32_to_le_bytes(a)) == a);
    assert(spec_u32_from_le_bytes(spec_u32_to_le_bytes(b)) == b);
}

pub proof fn lemma_encoding_injective(bytes: Seq<u8>, c1: KZGContribution, c2: KZGContribution)
    requires
        c1.wf(),
        c2.wf(),
        is_encoding(bytes, c1),
        is_encoding(bytes, c2),
    ensures
        c1.equiv(c2),
{
    lemma_u32_le_bytes_injective(c1.k, c2.k);
    lemma_u32_le_bytes_injective(c1.id, c2.id);
    assert(c1.g@.len() == c2.g@.len());
    assert forall|i: int| 0 <= i < c1.g@.len() implies c1.g_seq()[i] == c2.g_seq()[i] by {
        assert((#[trigger] c1.g@[i])@ == bytes.subrange(4 + 64 * i, 4 + 64 * i + 64));
        assert((#[trigger] c2.g@[i])@ == bytes.subrange(4 + 64 * i, 4 + 64 * i + 64));
    }
    assert(c1.g_seq() =~= c2.g_seq());
}

/// Round-trip law, second half: a well-formed record whose elements are
/// all canonical parses back successfully from its own serialized bytes,
/// under its own `k`.  Together with the first half and the contracts of
/// [`KZGContribution::write_custom`] and [`KZGContribution::read_custom`],
/// writing a validly constructed record and reading it back yields an
/// equal record.
pub proof fn lemma_valid_encoding_parses(bytes: Seq<u8>, c: KZGContribution)
    requires
        c.wf(),
        c.curve_ok(),
        is_encoding(bytes, c),
    ensures
        parse_ok(bytes, c.k),
{
    vstd::bytes::lemma_auto_spec_u32_to_from_le_bytes();
    let n = c.g@.len() as int;
    assert(n == spec_n(c.k));
    assert(spec_u32_to_le_bytes(c.k).len() == 4);
    assert(spec_u32_from_le_bytes(spec_u32_to_le_bytes(c.k)) == c.k);
    assert(header_matches(bytes, c.k));
    assert forall|i: int| 0 <= i < n implies g1_ok(
        #[trigger] bytes.subrange(4 + 64 * i, 4 + 64 * i + 64),
    ) by {
        assert((#[trigger] c.g@[i])@ == bytes.subrange(4 + 64 * i, 4 + 64 * i + 64));
        assert(g1_ok(c.g@[i]@));
    }
    assert(points_ok(bytes, n));
}

/// The genesis record of the fixed-size ceremony, as
/// [`KZGContribution::genesis`] builds it for [`crate::CONTRIBUTION_K`].
impl Default for KZGContribution {
    fn default() -> (out: Self)
        ensures
            out.wf(),
            out.curve_ok(),
            out.k == crate::CONTRIBUTION_K,
            out.id == 0,
            forall|i: int| 0 <= i < out.g@.len() ==> (#[trigger] out.g@[i])@ == generator_bytes(
                false,
            ),
            out.g2@ == generator_bytes(true),
            out.s_g2@ == generator_bytes(true),
            out.proof.p@ == zero_bytes(64),
            out.proof.r@ == zero_bytes(32),
    {
        KZGContribution::genesis(crate::CONTRIBUTION_K)
    }
}

impl PartialEq for KZGContribution {
    /// Structural equality over the full `g` vector, both G2 elements, the
    /// proof fields and the id.
    fn eq(&self, other: &Self) -> (r: bool) {
        if self.k != other.k || self.n != other.n || self.id != other.id {
            return false;
        }
        if self.g.len() != other.g.len() {
            assert(self.g_seq().len() != other.g_seq().len());
            return false;
        }
        let len = self.g.len();
        for i in 0..len
            invariant
                len == self.g@.len(),
                len == other.g@.len(),
                forall|j: int| 0 <= j < i ==> (#[trigger] self.g@[j])@ == other.g@[j]@,
        {
            if !bytes_eq(self.g[i].as_slice(), other.g[i].as_slice()) {
                assert(self.g_seq()[i as int] != other.g_seq()[i as int]);
                return false;
            }
        }
        proof {
            assert(self.g_seq() =~= other.g_seq());
        }
        bytes_eq(self.g2.as_slice(), other.g2.as_slice()) && bytes_eq(
            self.s_g2.as_slice(),
            other.s_g2.as_slice(),
        ) && bytes_eq(self.proof.p.as_slice(), other.proof.p.as_slice()) && bytes_eq(
            self.proof.r.as_slice(),
            other.proof.r.as_slice(),
        )
    }
}

impl vstd::std_specs::cmp::PartialEqSpecImpl for KZGContribution {
    open spec fn obeys_eq_spec() -> bool {
        true
    }

    open spec fn eq_spec(&self, other: &KZGContribution) -> bool {
        self.equiv(*other)
    }
}

} // verus!
