//! Adapter to the bn256 pairing curve of `halo2curves`.
//!
//! Group elements and scalars are handled as their raw byte encodings:
//! affine coordinates in Montgomery form, little-endian limbs, 64 bytes for
//! a G1 point, 128 bytes for a G2 point, 32 bytes for a scalar in `F_r`.
//! The identity of either group is encoded as all-zero bytes, and the
//! checked decoders of `halo2curves` accept exactly the canonical encodings
//! (each coordinate below the base-field modulus, point on the curve or the
//! identity), so byte equality of canonical encodings is point equality.
//!
//! Every function here is a trusted wrapper around one `halo2curves`
//! operation; what an operation returns is given a name by an
//! uninterpreted spec function over the raw bytes, and all contracts of the
//! verified code are stated over those names.

use vstd::prelude::*;

use halo2curves::bn256::{Bn256, Fq, Fq2, Fr, G1Affine, G2Affine};
use halo2curves::ff::{Field, FromUniformBytes, PrimeField};
use halo2curves::group::prime::PrimeCurveAffine;
use halo2curves::group::Curve;
use halo2curves::pairing::Engine;
use halo2curves::serde::SerdeObject;

verus! {

/// Byte length of a raw G1 point.
pub const G1_RAW_LEN: usize = 64;

/// Byte length of a raw G2 point.
pub const G2_RAW_LEN: usize = 128;

/// Byte length of a raw scalar in F_r.
pub const FR_RAW_LEN: usize = 32;

/// The two-adicity of F_r: its multiplicative group holds a subgroup of
/// order `2^28` and no larger power of two.
pub const FR_TWO_ADICITY: u32 = 28;

/// The all-zero byte string of length `n`: the raw encoding of the group
/// identity (n = 64 or 128) and of the zero scalar (n = 32).
pub open spec fn zero_bytes(n: nat) -> Seq<u8> {
    Seq::new(n, |i: int| 0u8)
}

/// The raw bytes of the fixed generator of G1 (`false`) or G2 (`true`).
pub uninterp spec fn generator_bytes(in_g2: bool) -> Seq<u8>;

/// Whether `p` is the canonical raw encoding of a G1 point: 64 bytes, both
/// coordinates below the base-field modulus, and on the curve or the identity.
pub uninterp spec fn g1_ok(p: Seq<u8>) -> bool;

/// Whether `p` is the canonical raw encoding of a G2 point.
pub uninterp spec fn g2_ok(p: Seq<u8>) -> bool;

/// Whether `s` is the canonical raw encoding of a scalar: 32 bytes below the
/// group-order modulus.
pub uninterp spec fn fr_ok(s: Seq<u8>) -> bool;

/// The raw bytes of the G1 point `p` multiplied by the scalar `s`.
pub uninterp spec fn g1_mul_bytes(p: Seq<u8>, s: Seq<u8>) -> Seq<u8>;

/// The raw bytes of the sum of two G1 points.
pub uninterp spec fn g1_add_bytes(a: Seq<u8>, b: Seq<u8>) -> Seq<u8>;

/// The raw bytes of the difference of two G1 points.
pub uninterp spec fn g1_sub_bytes(a: Seq<u8>, b: Seq<u8>) -> Seq<u8>;

/// The raw bytes of the G2 point `p` multiplied by the scalar `s`.
pub uninterp spec fn g2_mul_bytes(p: Seq<u8>, s: Seq<u8>) -> Seq<u8>;

/// The raw bytes of the negation of a G2 point.
pub uninterp spec fn g2_neg_bytes(p: Seq<u8>) -> Seq<u8>;

/// The raw bytes of the product of two scalars in F_r.
pub uninterp spec fn fr_mul_bytes(a: Seq<u8>, b: Seq<u8>) -> Seq<u8>;

/// The raw bytes of the sum of two scalars in F_r.
pub uninterp spec fn fr_add_bytes(a: Seq<u8>, b: Seq<u8>) -> Seq<u8>;

/// The raw bytes of the negation of a scalar in F_r.
pub uninterp spec fn fr_neg_bytes(a: Seq<u8>) -> Seq<u8>;

/// The raw bytes of the multiplicative inverse of a nonzero scalar in F_r.
pub uninterp spec fn fr_inv_bytes(a: Seq<u8>) -> Seq<u8>;

/// The raw bytes of the scalar with integer value `x`.
pub uninterp spec fn fr_of_u64(x: u64) -> Seq<u8>;

/// The raw bytes of the scalar obtained by reducing 64 uniform bytes into F_r.
pub uninterp spec fn fr_uniform_bytes(d: Seq<u8>) -> Seq<u8>;

/// The raw bytes of the multi-scalar multiplication sum of `scalars[i] * points[i]`.
pub uninterp spec fn g1_msm_bytes(scalars: Seq<Seq<u8>>, points: Seq<Seq<u8>>) -> Seq<u8>;

/// Whether the pairings e(a1, a2) and e(b1, b2) are equal, for raw G1 bytes
/// a1, b1 and raw G2 bytes a2, b2.
pub uninterp spec fn pairing_eq_bytes(a1: Seq<u8>, a2: Seq<u8>, b1: Seq<u8>, b2: Seq<u8>) -> bool;

/// The raw bytes of the points after a radix-2 FFT of size `1 << log_n`
/// over G1 with the twiddle scalar `omega`.
pub uninterp spec fn g1_fft_bytes(points: Seq<Seq<u8>>, omega: Seq<u8>, log_n: u32) -> Seq<Seq<u8>>;

/// The raw bytes of the inverse of the field's primitive `2^s`-th root of
/// unity, where `s` is the field's two-adicity.
pub uninterp spec fn fr_root_inv_bytes(two_adicity: u32) -> Seq<u8>;

/// The raw bytes of the G1 point whose affine coordinates have the integer
/// values given by the little-endian limbs `x` and `y`.
pub uninterp spec fn g1_of_limbs(x: Seq<u64>, y: Seq<u64>) -> Seq<u8>;

/// The raw bytes of the G2 point whose affine coordinates are the degree-2
/// extension elements (xc0 + xc1*u, yc0 + yc1*u), each half given by its
/// little-endian integer limbs.
pub uninterp spec fn g2_of_limbs(xc0: Seq<u64>, xc1: Seq<u64>, yc0: Seq<u64>, yc1: Seq<u64>) -> Seq<u8>;

/// Relies on `G1Affine::generator` of `halo2curves` (the fixed base point
/// (1, 2), canonical and on the curve) and `SerdeObject::to_raw_bytes`.
#[verifier::external_body]
pub fn g1_generator() -> (r: Vec<u8>)
    ensures
        r@ == generator_bytes(false),
        r@.len() == 64,
        g1_ok(r@),
{
    G1Affine::generator().to_raw_bytes()
}

/// Relies on `G2Affine::generator` of `halo2curves` (a fixed point of order
/// r, canonical and on the curve) and `SerdeObject::to_raw_bytes`.
#[verifier::external_body]
pub fn g2_generator() -> (r: Vec<u8>)
    ensures
        r@ == generator_bytes(true),
        r@.len() == 128,
        g2_ok(r@),
{
    G2Affine::generator().to_raw_bytes()
}

/// Relies on the identity of `halo2curves` G1: its affine encoding is the
/// pair (0, 0), so its raw bytes are all zeros, and the checked decoder
/// accepts it.
#[verifier::external_body]
pub fn g1_identity() -> (r: Vec<u8>)
    ensures
        r@ == zero_bytes(64),
        g1_ok(r@),
{
    <G1Affine as PrimeCurveAffine>::identity().to_raw_bytes()
}

/// Relies on `Fr::zero` of `halo2curves`: the Montgomery form of zero is
/// zero, so its raw bytes are all zeros, and they are canonical.
#[verifier::external_body]
pub fn fr_zero() -> (r: Vec<u8>)
    ensures
        r@ == zero_bytes(32),
        fr_ok(r@),
{
    Fr::zero().to_raw_bytes()
}

/// Relies on scalar multiplication `G1Affine * Fr` of `halo2curves`: the
/// result of a group operation on a valid point is a valid point, and
/// multiplying by the zero scalar yields the identity, whose raw encoding
/// is all zeros.
#[verifier::external_body]
pub fn g1_mul(p: &[u8], s: &[u8]) -> (r: Vec<u8>)
    requires
        p@.len() == 64,
        s@.len() == 32,
    ensures
        r@ == g1_mul_bytes(p@, s@),
        r@.len() == 64,
        g1_ok(p@) && fr_ok(s@) ==> g1_ok(r@),
        g1_ok(p@) && s@ == zero_bytes(32) ==> r@ == zero_bytes(64),
{
    let pt = G1Affine::from_raw_bytes_unchecked(p);
    let sc = Fr::from_raw_bytes_unchecked(s);
    (pt * sc).to_affine().to_raw_bytes()
}

/// Relies on the group addition of `halo2curves` G1.
#[verifier::external_body]
pub fn g1_add(a: &[u8], b: &[u8]) -> (r: Vec<u8>)
    requires
        a@.len() == 64,
        b@.len() == 64,
    ensures
        r@ == g1_add_bytes(a@, b@),
        r@.len() == 64,
        g1_ok(a@) && g1_ok(b@) ==> g1_ok(r@),
{
    let pa = G1Affine::from_raw_bytes_unchecked(a).to_curve();
    let pb = G1Affine::from_raw_bytes_unchecked(b).to_curve();
    (pa + pb).to_affine().to_raw_bytes()
}

/// Relies on the group subtraction of `halo2curves` G1.
#[verifier::external_body]
pub fn g1_sub(a: &[u8], b: &[u8]) -> (r: Vec<u8>)
    requires
        a@.len() == 64,
        b@.len() == 64,
    ensures
        r@ == g1_sub_bytes(a@, b@),
        r@.len() == 64,
        g1_ok(a@) && g1_ok(b@) ==> g1_ok(r@),
{
    let pa = G1Affine::from_raw_bytes_unchecked(a).to_curve();
    let pb = G1Affine::from_raw_bytes_unchecked(b).to_curve();
    (pa - pb).to_affine().to_raw_bytes()
}

/// Relies on scalar multiplication `G2Affine * Fr` of `halo2curves`.
#[verifier::external_body]
pub fn g2_mul(p: &[u8], s: &[u8]) -> (r: Vec<u8>)
    requires
        p@.len() == 128,
        s@.len() == 32,
    ensures
        r@ == g2_mul_bytes(p@, s@),
        r@.len() == 128,
        g2_ok(p@) && fr_ok(s@) ==> g2_ok(r@),
{
    let pt = G2Affine::from_raw_bytes_unchecked(p);
    let sc = Fr::from_raw_bytes_unchecked(s);
    (pt * sc).to_affine().to_raw_bytes()
}

/// Relies on the group negation of `halo2curves` G2.
#[verifier::external_body]
pub fn g2_neg(p: &[u8]) -> (r: Vec<u8>)
    requires
        p@.len() == 128,
    ensures
        r@ == g2_neg_bytes(p@),
        r@.len() == 128,
        g2_ok(p@) ==> g2_ok(r@),
{
    let pt = G2Affine::from_raw_bytes_unchecked(p).to_curve();
    (-pt).to_affine().to_raw_bytes()
}

/// Relies on the field multiplication of `halo2curves` F_r: Montgomery
/// products of canonical operands are reduced, hence canonical.
#[verifier::external_body]
pub fn fr_mul(a: &[u8], b: &[u8]) -> (r: Vec<u8>)
    requires
        a@.len() == 32,
        b@.len() == 32,
    ensures
        r@ == fr_mul_bytes(a@, b@),
        r@.len() == 32,
        fr_ok(a@) && fr_ok(b@) ==> fr_ok(r@),
{
    let fa = Fr::from_raw_bytes_unchecked(a);
    let fb = Fr::from_raw_bytes_unchecked(b);
    (fa * fb).to_raw_bytes()
}

/// Relies on the field addition of `halo2curves` F_r.
#[verifier::external_body]
pub fn fr_add(a: &[u8], b: &[u8]) -> (r: Vec<u8>)
    requires
        a@.len() == 32,
        b@.len() == 32,
    ensures
        r@ == fr_add_bytes(a@, b@),
        r@.len() == 32,
        fr_ok(a@) && fr_ok(b@) ==> fr_ok(r@),
{
    let fa = Fr::from_raw_bytes_unchecked(a);
    let fb = Fr::from_raw_bytes_unchecked(b);
    (fa + fb).to_raw_bytes()
}

/// Relies on the field negation of `halo2curves` F_r.
#[verifier::external_body]
pub fn fr_neg(a: &[u8]) -> (r: Vec<u8>)
    requires
        a@.len() == 32,
    ensures
        r@ == fr_neg_bytes(a@),
        r@.len() == 32,
        fr_ok(a@) ==> fr_ok(r@),
{
    let fa = Fr::from_raw_bytes_unchecked(a);
    (-fa).to_raw_bytes()
}

/// Relies on `Field::invert` of `halo2curves` F_r: it fails exactly on the
/// zero scalar, whose canonical raw encoding is all zeros.
#[verifier::external_body]
pub fn fr_invert(a: &[u8]) -> (r: Option<Vec<u8>>)
    requires
        a@.len() == 32,
    ensures
        fr_ok(a@) ==> ((r is Some) <==> a@ != zero_bytes(32)),
        r is Some ==> r.unwrap()@ == fr_inv_bytes(a@) && r.unwrap()@.len() == 32,
        fr_ok(a@) && r is Some ==> fr_ok(r.unwrap()@),
{
    let fa = Fr::from_raw_bytes_unchecked(a);
    Option::<Fr>::from(fa.invert()).map(|v| v.to_raw_bytes())
}

/// Relies on `Fr::from_raw` of `halo2curves`: it reduces an integer into the
/// field, so the result is canonical.
#[verifier::external_body]
pub fn fr_from_u64(x: u64) -> (r: Vec<u8>)
    ensures
        r@ == fr_of_u64(x),
        r@.len() == 32,
        fr_ok(r@),
{
    Fr::from_raw([x, 0, 0, 0]).to_raw_bytes()
}

/// Relies on `Fr::from_uniform_bytes` of `halo2curves`: it reduces 64
/// uniform bytes into the field, so the result is canonical.
#[verifier::external_body]
pub fn fr_from_uniform(d: &[u8]) -> (r: Vec<u8>)
    requires
        d@.len() == 64,
    ensures
        r@ == fr_uniform_bytes(d@),
        r@.len() == 32,
        fr_ok(r@),
{
    let arr: &[u8; 64] = d.try_into().unwrap();
    Fr::from_uniform_bytes(arr).to_raw_bytes()
}

/// Relies on `G1Affine::from_raw_bytes` of `halo2curves`, which succeeds
/// exactly on the canonical encodings: 64 bytes, coordinates below the
/// base-field modulus, point on the curve or the identity.
#[verifier::external_body]
pub fn g1_decode_ok(p: &[u8]) -> (r: bool)
    ensures
        r == g1_ok(p@),
{
    G1Affine::from_raw_bytes(p).is_some()
}

/// Relies on `G2Affine::from_raw_bytes` of `halo2curves`.
#[verifier::external_body]
pub fn g2_decode_ok(p: &[u8]) -> (r: bool)
    ensures
        r == g2_ok(p@),
{
    G2Affine::from_raw_bytes(p).is_some()
}

/// Relies on `Fr::from_raw_bytes` of `halo2curves`, which succeeds exactly
/// on 32 bytes below the group-order modulus.
#[verifier::external_body]
pub fn fr_decode_ok(s: &[u8]) -> (r: bool)
    ensures
        r == fr_ok(s@),
{
    Fr::from_raw_bytes(s).is_some()
}

/// Relies on `msm_best` of `halo2curves`: on valid non-identity points it
/// computes the sum of `scalars[i] * points[i]`, a well-defined group
/// element whatever schedule the multithreaded implementation picks, and
/// that element's canonical encoding is valid.  Validity of every point is
/// demanded, since the group sum is order-independent only on the curve;
/// the identity encoding is excluded too, since the batch-affine bucket
/// path taken for large inputs assumes its bases are not the identity and
/// can abort on one.
#[verifier::external_body]
pub fn g1_msm(scalars: &Vec<Vec<u8>>, points: &Vec<Vec<u8>>) -> (r: Vec<u8>)
    requires
        scalars@.len() == points@.len(),
        scalars@.len() > 0,
        forall|i: int| 0 <= i < scalars@.len() ==> scalars@[i]@.len() == 32,
        forall|i: int| 0 <= i < points@.len() ==> points@[i]@.len() == 64,
        forall|i: int| 0 <= i < points@.len() ==> g1_ok(points@[i]@),
        forall|i: int| 0 <= i < points@.len() ==> points@[i]@ != zero_bytes(64),
    ensures
        r@ == g1_msm_bytes(scalars@.map_values(|v: Vec<u8>| v@), points@.map_values(|v: Vec<u8>| v@)),
        r@.len() == 64,
        g1_ok(r@),
{
    let cs: Vec<Fr> = scalars.iter().map(|s| Fr::from_raw_bytes_unchecked(s)).collect();
    let ps: Vec<G1Affine> = points.iter().map(|p| G1Affine::from_raw_bytes_unchecked(p)).collect();
    halo2curves::msm::msm_best(&cs, &ps).to_affine().to_raw_bytes()
}

/// Relies on `Bn256::pairing` of `halo2curves`: the two pairings are
/// computed and their targets compared.  Only valid encodings are
/// admitted, so that every step of the Miller loops and the final
/// exponentiation stays on the paths the library means to be total.
#[verifier::external_body]
pub fn pairing_eq(a1: &[u8], a2: &[u8], b1: &[u8], b2: &[u8]) -> (r: bool)
    requires
        a1@.len() == 64,
        a2@.len() == 128,
        b1@.len() == 64,
        b2@.len() == 128,
        g1_ok(a1@),
        g2_ok(a2@),
        g1_ok(b1@),
        g2_ok(b2@),
    ensures
        r == pairing_eq_bytes(a1@, a2@, b1@, b2@),
{
    let pa1 = G1Affine::from_raw_bytes_unchecked(a1);
    let pa2 = G2Affine::from_raw_bytes_unchecked(a2);
    let pb1 = G1Affine::from_raw_bytes_unchecked(b1);
    let pb2 = G2Affine::from_raw_bytes_unchecked(b2);
    Bn256::pairing(&pa1, &pa2) == Bn256::pairing(&pb1, &pb2)
}

/// Relies on `best_fft` of `halo2curves` and `Curve::batch_normalize`: the
/// butterfly network's dataflow is fixed by the indices, so the result is
/// a function of the inputs alone, whatever the thread split; the batch
/// normalization skips identities and inverts a product of nonzero
/// z-coordinates, so the call is total; each output is the canonical
/// affine encoding, valid whenever every input is.
#[verifier::external_body]
pub fn g1_fft(points: &Vec<Vec<u8>>, omega: &[u8], log_n: u32) -> (r: Vec<Vec<u8>>)
    requires
        log_n <= 28,
        points@.len() == (1u64 << log_n) as int,
        forall|i: int| 0 <= i < points@.len() ==> (#[trigger] points@[i])@.len() == 64,
        omega@.len() == 32,
    ensures
        r@.map_values(|v: Vec<u8>| v@) == g1_fft_bytes(
            points@.map_values(|v: Vec<u8>| v@),
            omega@,
            log_n,
        ),
        r@.len() == points@.len(),
        forall|i: int| 0 <= i < r@.len() ==> (#[trigger] r@[i])@.len() == 64,
        (forall|i: int| 0 <= i < points@.len() ==> g1_ok((#[trigger] points@[i])@)) && fr_ok(
            omega@,
        ) ==> forall|i: int| 0 <= i < r@.len() ==> g1_ok((#[trigger] r@[i])@),
{
    let om = Fr::from_raw_bytes_unchecked(omega);
    let mut pts: Vec<halo2curves::bn256::G1> = points
        .iter()
        .map(|p| G1Affine::from_raw_bytes_unchecked(p).to_curve())
        .collect();
    halo2curves::fft::best_fft(&mut pts, om, log_n);
    let mut affine = vec![<G1Affine as PrimeCurveAffine>::identity(); pts.len()];
    halo2curves::bn256::G1::batch_normalize(&pts, &mut affine);
    affine.iter().map(|p| p.to_raw_bytes()).collect()
}

/// Relies on `Fr::ROOT_OF_UNITY_INV` of `halo2curves`: the inverse of the
/// fixed primitive root of unity of maximal two-power order; the field's
/// two-adicity is 28, and field constants are canonical.
#[verifier::external_body]
pub fn fr_root_of_unity_inv() -> (r: Vec<u8>)
    ensures
        r@ == fr_root_inv_bytes(FR_TWO_ADICITY),
        r@.len() == 32,
        fr_ok(r@),
{
    <Fr as PrimeField>::ROOT_OF_UNITY_INV.to_raw_bytes()
}

/// Relies on `Fq::from_raw` of `halo2curves` (reduction of an integer into
/// the base field) and the affine point constructor.
#[verifier::external_body]
pub fn g1_from_limbs(x: &Vec<u64>, y: &Vec<u64>) -> (r: Vec<u8>)
    requires
        x@.len() == 4,
        y@.len() == 4,
    ensures
        r@ == g1_of_limbs(x@, y@),
        r@.len() == 64,
{
    let xf = Fq::from_raw([x[0], x[1], x[2], x[3]]);
    let yf = Fq::from_raw([y[0], y[1], y[2], y[3]]);
    (G1Affine { x: xf, y: yf }).to_raw_bytes()
}

/// Relies on `Fq::from_raw` and `Fq2::new` of `halo2curves` and the affine
/// point constructor.
#[verifier::external_body]
pub fn g2_from_limbs(xc0: &Vec<u64>, xc1: &Vec<u64>, yc0: &Vec<u64>, yc1: &Vec<u64>) -> (r: Vec<u8>)
    requires
        xc0@.len() == 4,
        xc1@.len() == 4,
        yc0@.len() == 4,
        yc1@.len() == 4,
    ensures
        r@ == g2_of_limbs(xc0@, xc1@, yc0@, yc1@),
        r@.len() == 128,
{
    let x = Fq2::new(
        Fq::from_raw([xc0[0], xc0[1], xc0[2], xc0[3]]),
        Fq::from_raw([xc1[0], xc1[1], xc1[2], xc1[3]]),
    );
    let y = Fq2::new(
        Fq::from_raw([yc0[0], yc0[1], yc0[2], yc0[3]]),
        Fq::from_raw([yc1[0], yc1[1], yc1[2], yc1[3]]),
    );
    (G2Affine { x, y }).to_raw_bytes()
}

} // verus!
