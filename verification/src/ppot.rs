//! Importing a powers-of-tau challenge as the genesis contribution.
//!
//! A challenge file opens with a 64-byte response hash, then holds
//! `2^{kc+1} - 1` G1 points and, after them, the two G2 points `g2` and
//! `s_g2`.  Coordinates are stored big-endian, limbs high to low, and each
//! G2 coordinate stores its extension half `c1` before `c0`.  Only the
//! first `n = 2^k` G1 points and the two G2 points are consumed; the
//! challenge must have been computed for `kc >= k`, else it is too small
//! to seed the ceremony.

use vstd::prelude::*;

use vstd::bytes::{spec_u64_from_le_bytes, u64_from_le_bytes};
use vstd::slice::slice_subrange;

use crate::bytes::string_push_char;
use crate::contribution::{spec_n, KZGContribution};
use crate::curve::{g1_from_limbs, g1_of_limbs, g2_from_limbs, g2_of_limbs, zero_bytes};
use crate::entropy::{absorbed, blake2b_bytes, EntropyAccumulator};
use crate::proofs::ContributionProof;
use crate::CeremonyError;

verus! {

/// The sixteen lower-case hexadecimal digit characters.
pub open spec fn hex_digit_char(d: int) -> char {
    if d == 0 {
        '0'
    } else if d == 1 {
        '1'
    } else if d == 2 {
        '2'
    } else if d == 3 {
        '3'
    } else if d == 4 {
        '4'
    } else if d == 5 {
        '5'
    } else if d == 6 {
        '6'
    } else if d == 7 {
        '7'
    } else if d == 8 {
        '8'
    } else if d == 9 {
        '9'
    } else if d == 10 {
        'a'
    } else if d == 11 {
        'b'
    } else if d == 12 {
        'c'
    } else if d == 13 {
        'd'
    } else if d == 14 {
        'e'
    } else {
        'f'
    }
}

/// The lower-case hexadecimal form of a byte string, two digits per byte.
pub open spec fn hex_of(data: Seq<u8>) -> Seq<char> {
    Seq::new(data.len() * 2, |i: int|
        if i % 2 == 0 {
            hex_digit_char((data[i / 2] >> 4) as int)
        } else {
            hex_digit_char((data[i / 2] & 0xf) as int)
        })
}

/// The hexadecimal digit character of `d`.
fn hex_digit(d: u8) -> (out: char)
    requires
        d < 16,
    ensures
        out == hex_digit_char(d as int),
{
    match d {
        0 => '0',
        1 => '1',
        2 => '2',
        3 => '3',
        4 => '4',
        5 => '5',
        6 => '6',
        7 => '7',
        8 => '8',
        9 => '9',
        10 => 'a',
        11 => 'b',
        12 => 'c',
        13 => 'd',
        14 => 'e',
        _ => 'f',
    }
}

/// Formats a byte string in lower-case hexadecimal, for reporting a
/// challenge's embedded response hash.
pub fn hex_string(data: &[u8]) -> (out: String)
    ensures
        out@ == hex_of(data@),
{
    let mut out = String::new();
    let n = data.len();
    proof {
        assert(out@ =~= hex_of(data@).take(0));
    }
    for i in 0..n
        invariant
            n == data@.len(),
            out@ == hex_of(data@).take(2 * i),
    {
        let b = data[i];
        proof {
            assert(b >> 4 < 16 && b & 0xf < 16) by (bit_vector);
        }
        string_push_char(&mut out, hex_digit(b >> 4));
        string_push_char(&mut out, hex_digit(b & 0xf));
        proof {
            assert(out@ =~= hex_of(data@).take(2 * (i + 1)));
        }
    }
    proof {
        assert(hex_of(data@).take(2 * n) =~= hex_of(data@));
    }
    out
}

/// The lower-case hexadecimal Blake2b-512 digest of a byte string, for
/// auditing a whole challenge file.
pub fn challenge_hash_hex(data: &[u8]) -> (out: String)
    ensures
        out@ == hex_of(blake2b_bytes(data@)),
{
    let mut acc = EntropyAccumulator::new();
    acc.absorb(data);
    proof {
        assert(absorbed(acc) =~= data@);
    }
    let digest = acc.digest();
    hex_string(digest.as_slice())
}

/// A u64 read from eight big-endian bytes.
pub open spec fn u64_from_be(b: Seq<u8>) -> u64 {
    spec_u64_from_le_bytes(b.reverse())
}

/// The little-endian limbs of a 32-byte big-endian integer: limb `j` sits
/// at byte offset `(3 - j) * 8`.
pub open spec fn be_limbs(b: Seq<u8>) -> Seq<u64> {
    Seq::new(4, |j: int| u64_from_be(b.subrange((3 - j) * 8, (3 - j) * 8 + 8)))
}

/// The G1 point a 64-byte big-endian block of a challenge encodes: the
/// integer coordinates x then y.
pub open spec fn ppot_g1(b: Seq<u8>) -> Seq<u8> {
    g1_of_limbs(be_limbs(b.subrange(0, 32)), be_limbs(b.subrange(32, 64)))
}

/// The G2 point a 128-byte big-endian block of a challenge encodes: each
/// coordinate stores `c1` before `c0`.
pub open spec fn ppot_g2(b: Seq<u8>) -> Seq<u8> {
    g2_of_limbs(
        be_limbs(b.subrange(32, 64)),
        be_limbs(b.subrange(0, 32)),
        be_limbs(b.subrange(96, 128)),
        be_limbs(b.subrange(64, 96)),
    )
}

/// Byte offset of the TauG2 section: past the 64-byte response hash and
/// the `2^{kc+1} - 1` G1 points.
pub open spec fn challenge_g2_offset(challenge_k: u32) -> int {
    64 + 64 * ((1u128 << (challenge_k + 1)) as int - 1)
}

/// Whether a challenge buffer is large enough to be read at all.
pub open spec fn challenge_len_ok(len: int, challenge_k: u32) -> bool {
    challenge_k < 64 && len >= challenge_g2_offset(challenge_k) + 256
}

/// Reads a u64 from eight big-endian bytes.
fn read_be_u64(b: &[u8]) -> (out: u64)
    requires
        b@.len() == 8,
    ensures
        out == u64_from_be(b@),
{
    let mut rev: Vec<u8> = Vec::new();
    for t in 0..8usize
        invariant
            b@.len() == 8,
            rev@.len() == t,
            forall|x: int| 0 <= x < t ==> rev@[x] == b@[7 - x],
    {
        rev.push(b[7 - t]);
    }
    proof {
        assert(rev@ =~= b@.reverse());
    }
    u64_from_le_bytes(rev.as_slice())
}

/// Reads the four limbs of a 32-byte big-endian integer.
fn read_be_limbs(b: &[u8]) -> (out: Vec<u64>)
    requires
        b@.len() == 32,
    ensures
        out@ == be_limbs(b@),
        out@.len() == 4,
{
    let mut out: Vec<u64> = Vec::new();
    for j in 0..4usize
        invariant
            b@.len() == 32,
            out@.len() == j,
            forall|x: int| 0 <= x < j ==> out@[x] == u64_from_be(
                b@.subrange((3 - x) * 8, (3 - x) * 8 + 8),
            ),
    {
        let off = (3 - j) * 8;
        out.push(read_be_u64(slice_subrange(b, off, off + 8)));
    }
    proof {
        assert(out@ =~= be_limbs(b@));
    }
    out
}

/// Reads one big-endian G1 point of a challenge.
fn read_ppot_g1(b: &[u8]) -> (out: Vec<u8>)
    requires
        b@.len() == 64,
    ensures
        out@ == ppot_g1(b@),
        out@.len() == 64,
{
    let x = read_be_limbs(slice_subrange(b, 0, 32));
    let y = read_be_limbs(slice_subrange(b, 32, 64));
    g1_from_limbs(&x, &y)
}

/// Reads one big-endian G2 point of a challenge.
fn read_ppot_g2(b: &[u8]) -> (out: Vec<u8>)
    requires
        b@.len() == 128,
    ensures
        out@ == ppot_g2(b@),
        out@.len() == 128,
{
    let xc1 = read_be_limbs(slice_subrange(b, 0, 32));
    let xc0 = read_be_limbs(slice_subrange(b, 32, 64));
    let yc1 = read_be_limbs(slice_subrange(b, 64, 96));
    let yc0 = read_be_limbs(slice_subrange(b, 96, 128));
    g2_from_limbs(&xc0, &xc1, &yc0, &yc1)
}

/// Converts a powers-of-tau challenge into the genesis record of the
/// ceremony: its first `n = 2^k` G1 points, its two G2 points, the
/// placeholder proof and id zero.  A challenge computed for a smaller
/// `kc` than the ceremony's `k` is `ChallengeTooSmall`; a buffer shorter
/// than the challenge's announced content is `ChallengeIOError`.  The
/// points are taken as they stand; whether they form a valid SRS is for
/// the chain check to decide.
pub fn read_challenge(bytes: &[u8], challenge_k: u32, ceremony_k: u32) -> (out: Result<
    KZGContribution,
    CeremonyError,
>)
    requires
        ceremony_k <= 31,
    ensures
        out is Ok <==> ceremony_k <= challenge_k && challenge_len_ok(
            bytes@.len() as int,
            challenge_k,
        ),
        ceremony_k > challenge_k ==> out == Err::<KZGContribution, CeremonyError>(
            CeremonyError::ChallengeTooSmall,
        ),
        out matches Err(e) ==> e == CeremonyError::ChallengeTooSmall || e
            == CeremonyError::ChallengeIOError,
        out matches Ok(c) ==> {
            let off = challenge_g2_offset(challenge_k);
            &&& c.wf()
            &&& c.k == ceremony_k
            &&& c.id == 0
            &&& c.g@.len() == spec_n(ceremony_k)
            &&& forall|i: int| 0 <= i < c.g@.len() ==> c.g_seq()[i] == ppot_g1(
                #[trigger] bytes@.subrange(64 + 64 * i, 64 + 64 * i + 64),
            )
            &&& c.g2@ == ppot_g2(bytes@.subrange(off, off + 128))
            &&& c.s_g2@ == ppot_g2(bytes@.subrange(off + 128, off + 256))
            &&& c.proof.p@ == zero_bytes(64)
            &&& c.proof.r@ == zero_bytes(32)
        },
{
    if ceremony_k > challenge_k {
        return Err(CeremonyError::ChallengeTooSmall);
    }
    if challenge_k >= 64 {
        return Err(CeremonyError::ChallengeIOError);
    }

    proof {
        assert(1u128 <= (1u128 << (challenge_k + 1)) <= 0x20000000000000000u128) by (bit_vector)
            requires
                challenge_k < 64u32,
        ;
    }
    let taug1_len: u128 = (1u128 << (challenge_k + 1)) - 1;
    let g2_off128: u128 = 64 + 64 * taug1_len;
    let needed: u128 = g2_off128 + 256;
    let blen = bytes.len();
    if (blen as u128) < needed {
        return Err(CeremonyError::ChallengeIOError);
    }

    proof {
        assert((1u64 << ceremony_k) as u128 <= (1u128 << (challenge_k + 1)) - 1) by (bit_vector)
            requires
                ceremony_k <= 31u32,
                ceremony_k <= challenge_k,
                challenge_k < 64u32,
        ;
        assert(1u64 << ceremony_k <= 0x80000000u64) by (bit_vector)
            requires
                ceremony_k <= 31u32,
        ;
    }
    let n64: u64 = 1u64 << ceremony_k;
    let n: usize = n64 as usize;

    let mut g: Vec<Vec<u8>> = Vec::new();
    for i in 0..n
        invariant
            blen == bytes@.len(),
            n as int == spec_n(ceremony_k),
            64 + 64 * (n as int) + 256 <= blen,
            g@.len() == i,
            forall|j: int| 0 <= j < i ==> (#[trigger] g@[j])@ == ppot_g1(
                bytes@.subrange(64 + 64 * j, 64 + 64 * j + 64),
            ),
            forall|j: int| 0 <= j < i ==> (#[trigger] g@[j])@.len() == 64,
    {
        let off = 64 + 64 * i;
        g.push(read_ppot_g1(slice_subrange(bytes, off, off + 64)));
    }

    let g2_off: usize = g2_off128 as usize;
    let g2 = read_ppot_g2(slice_subrange(bytes, g2_off, g2_off + 128));
    let s_g2 = read_ppot_g2(slice_subrange(bytes, g2_off + 128, g2_off + 256));

    let out = KZGContribution::from_parts(
        ceremony_k,
        g,
        g2,
        s_g2,
        ContributionProof::default(),
        0,
    );
    Ok(out)
}

} // verus!
