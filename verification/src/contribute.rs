//! Extending the chain by one contribution.
//!
//! Rescaling multiplies every power of the previous SRS by the matching
//! power of a fresh secret `s` — `g_new[i] = s^i * g_prev[i]`, `s_g2_new =
//! s * s_g2_prev` — leaving the zeroth power and the G2 generator
//! untouched, attaches a knowledge proof for `s` relative to the previous
//! first power, and steps the id.  The running exponent is overwritten
//! with zeros before it is dropped, and so are both secrets once the new
//! record is built.

use vstd::prelude::*;

use crate::bytes::string_push_char;
use crate::check::{check_contribution, contribution_valid, fr_pow};
use crate::contribution::KZGContribution;
use crate::curve::{
    fr_add_bytes, fr_mul, fr_mul_bytes, fr_from_u64, fr_of_u64, fr_ok, g1_mul, g1_mul_bytes,
    g2_generator, g2_mul, g2_mul_bytes, generator_bytes, zero_bytes,
};
use crate::entropy::{absorbed, EntropyAccumulator};
use crate::proofs::{create_contribution_proof, proof_challenge};
use crate::secrets::{derived_s, derived_z, gen_secrets, Secret, SecretsGenConfig};
use crate::CeremonyError;

verus! {

/// The ten decimal digit characters.
pub open spec fn decimal_digit_char(d: int) -> char {
    if d == 0 {
        '0'
    } else if d == 1 {
        '1'
    } else if d == 2 {
        '2'
    } else if d == 3 {
        '3'
    } else if d == 4 {
        '4'
    } else if d == 5 {
        '5'
    } else if d == 6 {
        '6'
    } else if d == 7 {
        '7'
    } else if d == 8 {
        '8'
    } else {
        '9'
    }
}

/// Powers of ten.
pub open spec fn pow10(e: int) -> int
    decreases e,
{
    if e <= 0 {
        1
    } else {
        10 * pow10(e - 1)
    }
}

/// Powers of ten are positive.
proof fn lemma_pow10_pos(e: int)
    ensures
        pow10(e) >= 1,
    decreases (if e <= 0 { 0int } else { e }),
{
    if e > 0 {
        lemma_pow10_pos(e - 1);
    }
}

/// The decimal form of `x`, zero-padded to ten digits.
pub open spec fn padded_decimal_10(x: int) -> Seq<char> {
    Seq::new(10, |i: int| decimal_digit_char((x / pow10(9 - i)) % 10))
}

/// The file name of the contribution with the given id: its id zero-padded
/// to ten digits, then the contribution extension.
pub open spec fn contribution_filename(contribution_id: u32) -> Seq<char> {
    padded_decimal_10(contribution_id as int) + seq!['.', 'c', 's', 'r', 's']
}

/// The decimal digit character of `d`.
fn decimal_digit(d: u32) -> (out: char)
    requires
        d < 10,
    ensures
        out == decimal_digit_char(d as int),
{
    match d {
        0 => '0',
        1 => '1',
        2 => '2',
        3 => '3',
        4 => '4',
        5 => '5',
        6 => '6',
        7 => '7',
        8 => '8',
        _ => '9',
    }
}

/// The path a new contribution is stored under by default:
/// `<dir>/<id zero-padded to 10 digits>.csrs`.  Whether the directory
/// exists, and whether the file already does (`WouldOverwrite`), is for
/// the caller to test against the filesystem.
pub fn default_contribution_filepath(contributions_path: &str, contribution_id: u32) -> (out:
    String)
    ensures
        out@ == contributions_path@ + seq!['/'] + contribution_filename(contribution_id),
{
    let mut out = contributions_path.to_owned();
    string_push_char(&mut out, '/');

    let ghost base = contributions_path@ + seq!['/'];
    proof {
        assert(out@ =~= base);
        assert(padded_decimal_10(contribution_id as int).take(0) =~= Seq::<char>::empty());
        assert(out@ =~= base + padded_decimal_10(contribution_id as int).take(0));
    }

    let mut div: u32 = 1_000_000_000;
    proof {
        reveal_with_fuel(pow10, 11);
        assert(pow10(9) == 1_000_000_000);
    }
    for pos in 0..10usize
        invariant
            pos < 10 ==> div as int == pow10(9 - pos),
            out@ == base + padded_decimal_10(contribution_id as int).take(pos as int),
    {
        proof {
            lemma_pow10_pos(9 - pos as int);
        }
        let d = (contribution_id / div) % 10;
        string_push_char(&mut out, decimal_digit(d));
        proof {
            assert(padded_decimal_10(contribution_id as int).take(pos + 1) =~= padded_decimal_10(
                contribution_id as int,
            ).take(pos as int) + seq![decimal_digit_char(d as int)]);
            assert(out@ =~= base + padded_decimal_10(contribution_id as int).take(pos + 1));
        }
        div = div / 10;
        proof {
            if pos + 1 < 10 {
                assert(pow10(9 - pos) == 10 * pow10(9 - pos - 1));
            }
        }
    }
    proof {
        assert(padded_decimal_10(contribution_id as int).take(10) =~= padded_decimal_10(
            contribution_id as int,
        ));
    }

    string_push_char(&mut out, '.');
    string_push_char(&mut out, 'c');
    string_push_char(&mut out, 's');
    string_push_char(&mut out, 'r');
    string_push_char(&mut out, 's');
    proof {
        assert(out@ =~= contributions_path@ + seq!['/'] + contribution_filename(contribution_id));
    }
    out
}

/// Whether `c` is the rescaling of `prev` by some pair of canonical
/// secrets, the blinding being zero when public-randomness mode asked for
/// it.
pub open spec fn some_rescale_of(prev: KZGContribution, c: KZGContribution, reveal: bool) -> bool {
    exists|sv: Seq<u8>, zv: Seq<u8>|
        {
            &&& #[trigger] rescaled(prev, sv, zv, c)
            &&& fr_ok(sv)
            &&& fr_ok(zv)
            &&& reveal ==> zv == zero_bytes(32)
        }
}

/// What the rescaled record `c` is, given the previous record and the raw
/// secrets (s, z): the zeroth power untouched, every later power
/// multiplied by the matching power of `s`, the G2 generator kept, `s_g2`
/// multiplied by `s`, the id stepped, and the knowledge proof of `s`
/// relative to the previous first power.
pub open spec fn rescaled(prev: KZGContribution, s: Seq<u8>, z: Seq<u8>, c: KZGContribution) -> bool {
    &&& c.k == prev.k
    &&& c.n == prev.n
    &&& c.g@.len() == prev.g@.len()
    &&& c.g_seq()[0] == prev.g_seq()[0]
    &&& forall|i: int| 1 <= i < c.g@.len() ==> c.g_seq()[i] == g1_mul_bytes(
        prev.g_seq()[i],
        fr_pow(s, i as nat),
    )
    &&& c.g2@ == generator_bytes(true)
    &&& c.s_g2@ == g2_mul_bytes(prev.s_g2@, s)
    &&& c.id == prev.id + 1
    &&& c.proof.p@ == g1_mul_bytes(prev.g_seq()[1], z)
    &&& c.proof.r@ == fr_add_bytes(
        z,
        fr_mul_bytes(
            proof_challenge(g1_mul_bytes(prev.g_seq()[1], s), prev.g_seq()[1], c.proof.p@),
            s,
        ),
    )
}

/// Computes the next record from the previous one and the secrets (s, z),
/// as [`rescaled`] describes.
pub fn rescale(prev: &KZGContribution, s: &Secret, z: &Secret) -> (out: KZGContribution)
    requires
        prev.wf(),
        prev.g@.len() >= 2,
        prev.id < 0xffffffffu32,
        s.wf(),
        z.wf(),
    ensures
        out.wf(),
        rescaled(*prev, s.value@, z.value@, out),
        prev.curve_ok() && s.curve_ok() && z.curve_ok() ==> out.curve_ok(),
        prev.curve_ok() && z.value@ == zero_bytes(32) ==> out.proof.p@ == zero_bytes(64),
{
    let n = prev.g.len();
    let mut g: Vec<Vec<u8>> = Vec::new();
    // Rescaling never touches the zeroth power.
    g.push(vstd::slice::slice_to_vec(prev.g[0].as_slice()));
    let one = fr_from_u64(1);
    let mut s_pow = fr_mul(one.as_slice(), s.value.as_slice());
    proof {
        assert(fr_pow(s.value@, 0) == fr_of_u64(1));
        assert(fr_pow(s.value@, 1) == fr_mul_bytes(fr_pow(s.value@, 0), s.value@));
    }
    for i in 1..n
        invariant
            prev.wf(),
            s.wf(),
            n == prev.g@.len(),
            g@.len() == i,
            g@[0]@ == prev.g_seq()[0],
            s_pow@.len() == 32,
            s_pow@ == fr_pow(s.value@, i as nat),
            s.curve_ok() ==> fr_ok(s_pow@),
            forall|j: int| 1 <= j < i ==> (#[trigger] g@[j])@ == g1_mul_bytes(
                prev.g_seq()[j],
                fr_pow(s.value@, j as nat),
            ),
            forall|j: int| 0 <= j < i ==> (#[trigger] g@[j])@.len() == 64,
            forall|j: int| 0 <= j < i ==> (prev.curve_ok() && s.curve_ok()) ==> crate::curve::g1_ok(
                (#[trigger] g@[j])@,
            ),
    {
        g.push(g1_mul(prev.g[i].as_slice(), s_pow.as_slice()));
        s_pow = fr_mul(s_pow.as_slice(), s.value.as_slice());
    }

    // The running exponent is secret-derived: overwrite it before dropping.
    let plen = s_pow.len();
    for t in 0..plen
        invariant
            plen == s_pow@.len(),
    {
        s_pow.set(t, 0);
    }

    let s_g2 = g2_mul(prev.s_g2.as_slice(), s.value.as_slice());
    let contribution_proof = create_contribution_proof(prev.g[1].as_slice(), s, z);
    let out = KZGContribution::from_parts(
        prev.k,
        g,
        g2_generator(),
        s_g2,
        contribution_proof,
        prev.id + 1,
    );
    out
}

/// Verifies the previous record, derives the secrets from the handed-over
/// entropy and the configuration, rescales, and returns the new record;
/// the caller stores it.  The previous record failing its checks is
/// `InvalidSRS`; a failing operating-system entropy source is
/// `EntropyIOError`; with a valid record and no such source configured the
/// call succeeds.  Both secrets are overwritten with zeros before
/// returning.
pub fn contribute(
    prev: &KZGContribution,
    entropy: EntropyAccumulator,
    config: &SecretsGenConfig,
    ceremony_k: u32,
) -> (out: Result<KZGContribution, CeremonyError>)
    requires
        prev.wf(),
        prev.curve_ok(),
        1 <= ceremony_k <= 31,
        prev.id < 0xffffffffu32,
    ensures
        out == Err::<KZGContribution, CeremonyError>(CeremonyError::InvalidSRS)
            <==> !contribution_valid(*prev, ceremony_k),
        out matches Err(e) ==> e == CeremonyError::InvalidSRS || (e == CeremonyError::EntropyIOError
            && config.random_bytes_size is Some),
        contribution_valid(*prev, ceremony_k) && config.random_bytes_size is None ==> out is Ok,
        out matches Ok(c) ==> c.wf() && some_rescale_of(*prev, c, config.reveal_s) && (
        prev.curve_ok() ==> c.curve_ok()),
        out matches Ok(c) ==> prev.curve_ok() && config.reveal_s ==> c.proof.p@ == zero_bytes(
            64,
        ),
        out matches Ok(c) ==> config.random_bytes_size is None ==> rescaled(
            *prev,
            derived_s(absorbed(entropy), *config),
            derived_z(absorbed(entropy), *config),
            c,
        ),
        out matches Ok(c) ==> config.random_bytes_size matches Some(nb) ==> exists|r: Seq<u8>|
            {
                &&& r.len() == nb
                &&& #[trigger] rescaled(
                    *prev,
                    derived_s(absorbed(entropy) + r, *config),
                    derived_z(absorbed(entropy) + r, *config),
                    c,
                )
            },
{
    if !check_contribution(prev, ceremony_k) {
        return Err(CeremonyError::InvalidSRS);
    }

    let (mut s, mut z) = match gen_secrets(entropy, config) {
        Ok(pair) => pair,
        Err(e) => {
            return Err(e);
        },
    };

    let out = rescale(prev, &s, &z);
    let ghost sv = s.value@;
    let ghost zv = z.value@;

    proof {
        // With an operating-system entropy source, the derivation mixed
        // some drawn bytes into the caller's entropy; name them and carry
        // them into the rescaling statement.
        if config.random_bytes_size is Some {
            let nb = config.random_bytes_size.unwrap();
            let rb = choose|r: Seq<u8>|
                {
                    &&& r.len() == nb
                    &&& s.value@ == #[trigger] derived_s(absorbed(entropy) + r, *config)
                    &&& z.value@ == derived_z(absorbed(entropy) + r, *config)
                };
            assert(rescaled(
                *prev,
                derived_s(absorbed(entropy) + rb, *config),
                derived_z(absorbed(entropy) + rb, *config),
                out,
            ));
        }
    }

    // Discard the secrets: overwrite both scalars with zeros.
    s.zeroize();
    z.zeroize();

    proof {
        assert(rescaled(*prev, sv, zv, out));
        assert(some_rescale_of(*prev, out, config.reveal_s));
    }
    Ok(out)
}

} // verus!
