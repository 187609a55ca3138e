//! Validity of one contribution and of a whole chain.
//!
//! A single record is valid when its constants match the ceremony, its
//! generators are the fixed ones, its G2 elements have full order, its `g`
//! vector has the announced length, its first power is not the identity,
//! and the random-linear-combination pairing check accepts: for a challenge
//! `rho` hashed from the whole SRS, with `M = sum rho^i * g[i]`,
//! `e((M - g1) * rho^{-1}, g2) == e(M - rho^{n-1} * g[n-1], s_g2)`,
//! which forces `g[i+1] = s * g[i]` throughout.
//!
//! A chain, fed in ascending id order without duplicates, is valid when the
//! ids are exactly `0..M` with no gap, every record is valid, and every
//! record's proof verifies against its predecessor's first power.

use vstd::prelude::*;

use vstd::slice::slice_to_vec;

use crate::bytes::{bytes_eq, is_zero_bytes};
use crate::contribution::{spec_n, KZGContribution};
use crate::curve::{
    fr_from_u64, fr_inv_bytes, fr_invert, fr_mul, fr_mul_bytes, fr_neg, fr_neg_bytes, fr_of_u64,
    fr_ok, g1_generator, g1_msm, g1_msm_bytes, g1_mul, g1_mul_bytes, g1_sub, g1_sub_bytes, g2_generator,
    g2_mul, g2_mul_bytes, g2_neg, g2_neg_bytes, generator_bytes, pairing_eq, pairing_eq_bytes,
    zero_bytes,
};
use crate::hash::{h_fs, hash_to_fr};
use crate::proofs::{proof_accepted, verify_contribution_proof};
use crate::CeremonyError;

verus! {

/// The concatenation of a sequence of byte strings.
pub open spec fn concat_bytes(ss: Seq<Seq<u8>>) -> Seq<u8>
    decreases ss.len(),
{
    if ss.len() == 0 {
        Seq::<u8>::empty()
    } else {
        concat_bytes(ss.drop_last()) + ss.last()
    }
}

/// The transcript the SRS challenge is hashed from: every point of `g` in
/// order, then `g2`, then `s_g2`.
pub open spec fn srs_transcript(c: KZGContribution) -> Seq<u8> {
    concat_bytes(c.g_seq()) + c.g2@ + c.s_g2@
}

/// The random-linear-combination challenge of a record.
pub open spec fn srs_rho(c: KZGContribution) -> Seq<u8> {
    h_fs(srs_transcript(c))
}

/// The `i`-th power of a scalar, over the raw encodings.
pub open spec fn fr_pow(s: Seq<u8>, i: nat) -> Seq<u8>
    decreases i,
{
    if i == 0 {
        fr_of_u64(1)
    } else {
        fr_mul_bytes(fr_pow(s, (i - 1) as nat), s)
    }
}

/// Whether a G2 point has full order r: multiplying by the full-bitwidth
/// scalar `-1` must negate it.
pub open spec fn g2_order_ok(p: Seq<u8>) -> bool {
    g2_mul_bytes(p, fr_neg_bytes(fr_of_u64(1))) == g2_neg_bytes(p)
}

/// The random-linear-combination pairing check of a record: for the hashed
/// challenge `rho` (rejected if it is zero, since the check divides by it)
/// and the multi-scalar sum `M = sum rho^i * g[i]`,
/// `e((M - g1) * rho^{-1}, g2) == e(M - rho^{n-1} * g[n-1], s_g2)`.
pub open spec fn srs_rlc_ok(c: KZGContribution) -> bool {
    let rho = srs_rho(c);
    let n = c.g@.len() as int;
    let powers = Seq::new(n as nat, |i: int| fr_pow(rho, i as nat));
    let msm = g1_msm_bytes(powers, c.g_seq());
    let left = g1_mul_bytes(g1_sub_bytes(msm, generator_bytes(false)), fr_inv_bytes(rho));
    let right = g1_sub_bytes(msm, g1_mul_bytes(c.g_seq()[n - 1], fr_pow(rho, (n - 1) as nat)));
    &&& rho != zero_bytes(32)
    &&& pairing_eq_bytes(left, generator_bytes(true), right, c.s_g2@)
}

/// The SRS checks of one record: at least two powers, no identity
/// encoding anywhere in `g` (a well-formed SRS has none, since its powers
/// are `s^i * g1` with a non-identity first power; the multi-scalar
/// multiplication also demands bases off the identity), the fixed
/// generators at `g[0]` and `g2`, full order of both G2 elements, the
/// announced length, the pairing check, and a non-identity first power.
pub open spec fn srs_valid(c: KZGContribution, ceremony_k: u32) -> bool {
    let n = c.g@.len() as int;
    &&& n >= 2
    &&& forall|i: int| 0 <= i < n ==> #[trigger] c.g_seq()[i] != zero_bytes(64)
    &&& c.g_seq()[0] == generator_bytes(false)
    &&& c.g2@ == generator_bytes(true)
    &&& g2_order_ok(c.g2@)
    &&& g2_order_ok(c.s_g2@)
    &&& n == spec_n(ceremony_k)
    &&& srs_rlc_ok(c)
    &&& c.g_seq()[1] != zero_bytes(64)
}

/// A record is valid for the ceremony when its `k` and `n` are the
/// ceremony's and its SRS passes every check.
pub open spec fn contribution_valid(c: KZGContribution, ceremony_k: u32) -> bool {
    &&& c.k == ceremony_k
    &&& c.n as int == spec_n(ceremony_k)
    &&& srs_valid(c, ceremony_k)
}

/// Builds the SRS transcript of a record.
fn build_srs_transcript(c: &KZGContribution) -> (out: Vec<u8>)
    requires
        c.wf(),
    ensures
        out@ == srs_transcript(*c),
{
    let mut out: Vec<u8> = Vec::new();
    let n = c.g.len();
    proof {
        assert(c.g_seq().take(0) =~= Seq::<Seq<u8>>::empty());
    }
    for i in 0..n
        invariant
            c.wf(),
            n == c.g@.len(),
            out@ == concat_bytes(c.g_seq().take(i as int)),
    {
        let mut part = slice_to_vec(c.g[i].as_slice());
        out.append(&mut part);
        proof {
            assert(c.g_seq().take(i + 1).drop_last() =~= c.g_seq().take(i as int));
            assert(c.g_seq().take(i + 1).last() == c.g_seq()[i as int]);
        }
    }
    proof {
        assert(c.g_seq().take(n as int) =~= c.g_seq());
    }
    let mut part = slice_to_vec(c.g2.as_slice());
    out.append(&mut part);
    let mut part = slice_to_vec(c.s_g2.as_slice());
    out.append(&mut part);
    out
}

/// Computes the vector `(1, rho, rho^2, ..., rho^{n-1})`.
fn build_rho_powers(rho: &[u8], n: usize) -> (out: Vec<Vec<u8>>)
    requires
        rho@.len() == 32,
        fr_ok(rho@),
    ensures
        out@.len() == n,
        forall|i: int| 0 <= i < n ==> (#[trigger] out@[i])@ == fr_pow(rho@, i as nat),
        forall|i: int| 0 <= i < n ==> (#[trigger] out@[i])@.len() == 32,
        forall|i: int| 0 <= i < n ==> fr_ok((#[trigger] out@[i])@),
{
    let mut out: Vec<Vec<u8>> = Vec::new();
    let mut cur = fr_from_u64(1);
    for i in 0..n
        invariant
            rho@.len() == 32,
            fr_ok(rho@),
            out@.len() == i,
            cur@.len() == 32,
            cur@ == fr_pow(rho@, i as nat),
            fr_ok(cur@),
            forall|j: int| 0 <= j < i ==> (#[trigger] out@[j])@ == fr_pow(rho@, j as nat),
            forall|j: int| 0 <= j < i ==> (#[trigger] out@[j])@.len() == 32,
            forall|j: int| 0 <= j < i ==> fr_ok((#[trigger] out@[j])@),
    {
        out.push(slice_to_vec(cur.as_slice()));
        cur = fr_mul(cur.as_slice(), rho);
    }
    out
}

/// Runs the six SRS checks on one record, as [`srs_valid`] describes.
pub fn check_srs(c: &KZGContribution, ceremony_k: u32) -> (out: bool)
    requires
        c.wf(),
        c.curve_ok(),
        ceremony_k <= 31,
    ensures
        out == srs_valid(*c, ceremony_k),
{
    let n = c.g.len();
    if n < 2 {
        return false;
    }

    // No power may be the identity: a well-formed SRS has none, and the
    // multi-scalar multiplication below demands bases off the identity.
    for i in 0..n
        invariant
            c.wf(),
            n == c.g@.len(),
            forall|j: int| 0 <= j < i ==> #[trigger] c.g_seq()[j] != zero_bytes(64),
    {
        if is_zero_bytes(c.g[i].as_slice()) {
            proof {
                assert(c.g_seq()[i as int] == zero_bytes(64));
            }
            return false;
        }
    }

    let gen1 = g1_generator();
    let gen2 = g2_generator();
    let generators_ok = bytes_eq(c.g[0].as_slice(), gen1.as_slice()) && bytes_eq(
        c.g2.as_slice(),
        gen2.as_slice(),
    );

    let minus_one = fr_neg(fr_from_u64(1).as_slice());
    let order_ok = bytes_eq(
        g2_mul(c.g2.as_slice(), minus_one.as_slice()).as_slice(),
        g2_neg(c.g2.as_slice()).as_slice(),
    ) && bytes_eq(
        g2_mul(c.s_g2.as_slice(), minus_one.as_slice()).as_slice(),
        g2_neg(c.s_g2.as_slice()).as_slice(),
    );

    proof {
        assert(1u64 << ceremony_k <= 0x80000000u64) by (bit_vector)
            requires
                ceremony_k <= 31u32,
        ;
    }
    let n64: u64 = 1u64 << ceremony_k;
    let length_ok = (n as u64) == n64;

    let transcript = build_srs_transcript(c);
    let rho = hash_to_fr(transcript.as_slice());

    let powers = build_rho_powers(rho.as_slice(), n);
    proof {
        assert forall|i: int| 0 <= i < c.g@.len() implies (#[trigger] c.g@[i])@ != zero_bytes(
            64,
        ) by {
            assert(c.g_seq()[i] != zero_bytes(64));
            assert(c.g_seq()[i] == c.g@[i]@);
        }
    }
    let msm = g1_msm(&powers, &c.g);
    proof {
        assert(powers@.map_values(|v: Vec<u8>| v@) =~= Seq::new(
            c.g@.len() as nat,
            |i: int| fr_pow(rho@, i as nat),
        ));
    }

    let rlc_ok = match fr_invert(rho.as_slice()) {
        Some(rho_inv) => {
            let left = g1_mul(g1_sub(msm.as_slice(), gen1.as_slice()).as_slice(), rho_inv.as_slice());
            let last_term = g1_mul(c.g[n - 1].as_slice(), powers[n - 1].as_slice());
            let right = g1_sub(msm.as_slice(), last_term.as_slice());
            pairing_eq(left.as_slice(), gen2.as_slice(), right.as_slice(), c.s_g2.as_slice())
        },
        None => false,
    };

    let nondegenerate_ok = !is_zero_bytes(c.g[1].as_slice());

    generators_ok && order_ok && length_ok && rlc_ok && nondegenerate_ok
}

/// Checks one record against the ceremony's constants and its SRS checks,
/// as [`contribution_valid`] describes.
pub fn check_contribution(c: &KZGContribution, ceremony_k: u32) -> (out: bool)
    requires
        c.wf(),
        c.curve_ok(),
        ceremony_k <= 31,
    ensures
        out == contribution_valid(*c, ceremony_k),
{
    proof {
        assert(1u64 << ceremony_k <= 0x80000000u64) by (bit_vector)
            requires
                ceremony_k <= 31u32,
        ;
    }
    let n64: u64 = 1u64 << ceremony_k;
    let constants_ok = c.k == ceremony_k && (c.n as u64) == n64;
    let srs_ok = check_srs(c, ceremony_k);
    constants_ok && srs_ok
}

/// Whether a record's proof verifies against its predecessor's first power.
pub open spec fn chain_link_ok(prev: KZGContribution, cur: KZGContribution) -> bool {
    proof_accepted(prev.g_seq()[1], cur.g_seq()[1], cur.proof.p@, cur.proof.r@)
}

/// The per-record conjunction of a chain prefix: ids are exactly the
/// positions, every record is valid, every link's proof verifies.
pub open spec fn chain_records_valid(rs: Seq<KZGContribution>, ceremony_k: u32) -> bool {
    &&& forall|i: int| 0 <= i < rs.len() ==> (#[trigger] rs[i]).id == i
    &&& forall|i: int| 0 <= i < rs.len() ==> contribution_valid(#[trigger] rs[i], ceremony_k)
    &&& forall|i: int| 1 <= i < rs.len() ==> chain_link_ok(rs[i - 1], #[trigger] rs[i])
}

/// A non-empty chain whose ids form `0..M` with no gap, whose records are
/// all valid and whose proofs all verify.
pub open spec fn chain_valid(rs: Seq<KZGContribution>, ceremony_k: u32) -> bool {
    rs.len() > 0 && chain_records_valid(rs, ceremony_k)
}

/// Walks the records of a chain in ascending id order and verifies each
/// one: its SRS, and — past the genesis — its proof against the
/// immediately preceding record's first power.  A missing predecessor
/// counts as a failed proof.  Verification continues past failures; the
/// result is the conjunction, true exactly on a valid chain ([`chain_valid`]).
/// An empty directory is the one error, `NoContributions`.
pub fn check_contribution_chain(records: &Vec<KZGContribution>, ceremony_k: u32) -> (out: Result<
    bool,
    CeremonyError,
>)
    requires
        1 <= ceremony_k <= 31,
        forall|i: int| 0 <= i < records@.len() ==> (#[trigger] records@[i]).wf(),
        forall|i: int| 0 <= i < records@.len() ==> (#[trigger] records@[i]).curve_ok(),
        forall|i: int| 0 <= i < records@.len() ==> (#[trigger] records@[i]).k == ceremony_k,
        forall|i: int| 1 <= i < records@.len() ==> records@[i - 1].id < (#[trigger] records@[i]).id,
    ensures
        out is Err <==> records@.len() == 0,
        out matches Err(e) ==> e == CeremonyError::NoContributions,
        out matches Ok(b) ==> b == chain_valid(records@, ceremony_k),
{
    if records.len() == 0 {
        return Err(CeremonyError::NoContributions);
    }

    let mut ok = true;
    let n = records.len();
    proof {
        assert(records@.take(0) =~= Seq::<KZGContribution>::empty());
    }
    for i in 0..n
        invariant
            n == records@.len(),
            1 <= ceremony_k <= 31,
            forall|j: int| 0 <= j < records@.len() ==> (#[trigger] records@[j]).wf(),
            forall|j: int| 0 <= j < records@.len() ==> (#[trigger] records@[j]).curve_ok(),
            forall|j: int| 0 <= j < records@.len() ==> (#[trigger] records@[j]).k == ceremony_k,
            forall|j: int| 1 <= j < records@.len() ==> records@[j - 1].id < (
            #[trigger] records@[j]).id,
            ok == chain_records_valid(records@.take(i as int), ceremony_k),
    {
        let c = &records[i];
        proof {
            assert(1u64 << ceremony_k >= 2) by (bit_vector)
                requires
                    1 <= ceremony_k <= 31u32,
            ;
            assert(c.g@.len() >= 2);
        }
        let srs_ok = check_contribution(c, ceremony_k);

        let proof_ok: bool;
        if c.id == 0 {
            proof_ok = true;
        } else if i > 0 && records[i - 1].id == c.id - 1 {
            let prev = &records[i - 1];
            proof {
                assert(1u64 << ceremony_k >= 2) by (bit_vector)
                    requires
                        1 <= ceremony_k <= 31u32,
                ;
                assert(prev.g@.len() >= 2);
            }
            proof_ok = verify_contribution_proof(
                prev.g[1].as_slice(),
                c.g[1].as_slice(),
                &c.proof,
            );
        } else {
            proof_ok = false;
        }

        proof {
            let rs = records@;
            let ii = i as int;
            let pre = rs.take(ii);
            let post = rs.take(ii + 1);
            assert(forall|j: int| 0 <= j < pre.len() ==> pre[j] == rs[j]);
            assert(forall|j: int| 0 <= j < post.len() ==> post[j] == rs[j]);

            // The whole-prefix conjunction splits into the prefix so far
            // plus the three facts about position i.
            let at_i = rs[ii].id == ii && contribution_valid(rs[ii], ceremony_k) && (ii >= 1
                ==> chain_link_ok(rs[ii - 1], rs[ii]));
            assert(chain_records_valid(post, ceremony_k) <==> (chain_records_valid(
                pre,
                ceremony_k,
            ) && at_i)) by {
                if chain_records_valid(pre, ceremony_k) && at_i {
                    assert forall|j: int| 0 <= j < post.len() implies (#[trigger] post[j]).id
                        == j by {
                        if j < ii {
                            assert(pre[j].id == j);
                        }
                    }
                    assert forall|j: int| 0 <= j < post.len() implies contribution_valid(
                        #[trigger] post[j],
                        ceremony_k,
                    ) by {
                        if j < ii {
                            assert(contribution_valid(pre[j], ceremony_k));
                        }
                    }
                    assert forall|j: int| 1 <= j < post.len() implies chain_link_ok(
                        post[j - 1],
                        #[trigger] post[j],
                    ) by {
                        if j < ii {
                            assert(chain_link_ok(pre[j - 1], pre[j]));
                        }
                    }
                }
                if chain_records_valid(post, ceremony_k) {
                    assert forall|j: int| 0 <= j < pre.len() implies (#[trigger] pre[j]).id
                        == j by {
                        assert(post[j].id == j);
                    }
                    assert forall|j: int| 0 <= j < pre.len() implies contribution_valid(
                        #[trigger] pre[j],
                        ceremony_k,
                    ) by {
                        assert(contribution_valid(post[j], ceremony_k));
                    }
                    assert forall|j: int| 1 <= j < pre.len() implies chain_link_ok(
                        pre[j - 1],
                        #[trigger] pre[j],
                    ) by {
                        assert(chain_link_ok(post[j - 1], post[j]));
                    }
                }
            }

            // Under a valid prefix, the executable proof check agrees with
            // the id-contiguity and link facts about position i.
            if chain_records_valid(pre, ceremony_k) {
                if rs[ii].id == 0 {
                    if ii > 0 {
                        assert(pre[0].id == 0);
                        assert(pre[ii - 1].id == ii - 1);
                        assert(rs[ii - 1].id < rs[ii].id);
                        assert(false);
                    }
                } else {
                    if ii > 0 {
                        assert(pre[ii - 1].id == ii - 1);
                    }
                }
                assert(proof_ok == (rs[ii].id == ii && (ii >= 1 ==> chain_link_ok(
                    rs[ii - 1],
                    rs[ii],
                ))));
            }

            assert((ok && srs_ok && proof_ok) == chain_records_valid(post, ceremony_k));
        }

        ok = ok && srs_ok && proof_ok;
    }
    proof {
        assert(records@.take(n as int) =~= records@);
    }
    Ok(ok)
}

} // verus!
