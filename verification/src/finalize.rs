//! Converting the verified tail of the chain into downstream KZG
//! parameters.
//!
//! The parameter object consists of `k`, the monomial basis `g`, its
//! Lagrange-basis representation, then `g2` and `s_g2`, all points raw.
//! The Lagrange basis is an inverse NTT over the multiplicative subgroup
//! of size `n = 1 << k`: a radix-2 FFT of `g` with the inverse root of
//! unity of order `n`, scaled by `n^{-1}`.  The root for the subgroup is
//! the field's maximal-order root squared down, and `n^{-1}` is computed
//! by field inversion — which succeeds, since the field's order is odd and
//! a power of two never reduces to zero; for totality the contract still
//! says exactly when it would not.

use vstd::prelude::*;

use vstd::bytes::{spec_u32_to_le_bytes, u32_to_le_bytes};
use vstd::slice::slice_to_vec;

use crate::check::concat_bytes;
use crate::contribution::KZGContribution;
use crate::curve::{
    fr_from_u64, fr_inv_bytes, fr_invert, fr_mul, fr_mul_bytes, fr_of_u64, fr_ok,
    fr_root_inv_bytes, fr_root_of_unity_inv, g1_fft, g1_fft_bytes, g1_mul, g1_mul_bytes,
    zero_bytes, FR_TWO_ADICITY,
};

verus! {

/// A scalar squared `m` times.
pub open spec fn fr_squared_iter(x: Seq<u8>, m: nat) -> Seq<u8>
    decreases m,
{
    if m == 0 {
        x
    } else {
        let prev = fr_squared_iter(x, (m - 1) as nat);
        fr_mul_bytes(prev, prev)
    }
}

/// The inverse root of unity of order `1 << k`: the field's maximal-order
/// inverse root, squared down to the subgroup.
pub open spec fn subgroup_root_inv(k: u32) -> Seq<u8> {
    fr_squared_iter(fr_root_inv_bytes(FR_TWO_ADICITY), (FR_TWO_ADICITY - k) as nat)
}

/// The Lagrange-basis representation of the monomial basis `g`: the
/// inverse-root FFT of `g`, every point scaled by `n^{-1}`.
pub open spec fn lagrange_basis(g: Seq<Seq<u8>>, k: u32) -> Seq<Seq<u8>> {
    let fft = g1_fft_bytes(g, subgroup_root_inv(k), k);
    let n_inv = fr_inv_bytes(fr_of_u64(1u64 << k));
    Seq::new(fft.len(), |i: int| g1_mul_bytes(fft[i], n_inv))
}

/// Computes the inverse root of unity of order `1 << k`.
fn compute_subgroup_root_inv(k: u32) -> (out: Vec<u8>)
    requires
        k <= FR_TWO_ADICITY,
    ensures
        out@ == subgroup_root_inv(k),
        out@.len() == 32,
        fr_ok(out@),
{
    let mut w = fr_root_of_unity_inv();
    let m = FR_TWO_ADICITY - k;
    for t in 0..m
        invariant
            m == FR_TWO_ADICITY - k,
            w@ == fr_squared_iter(fr_root_inv_bytes(FR_TWO_ADICITY), t as nat),
            w@.len() == 32,
            fr_ok(w@),
    {
        w = fr_mul(w.as_slice(), w.as_slice());
    }
    w
}

/// Computes the Lagrange basis of a monomial basis of `1 << k` points, as
/// [`lagrange_basis`] describes.  `None` exactly when `1 << k` reduces to
/// the zero scalar, which the field's odd order rules out.
pub fn g_to_lagrange(g: &Vec<Vec<u8>>, k: u32) -> (out: Option<Vec<Vec<u8>>>)
    requires
        k <= FR_TWO_ADICITY,
        g@.len() == (1u64 << k) as int,
        forall|i: int| 0 <= i < g@.len() ==> (#[trigger] g@[i])@.len() == 64,
    ensures
        out is Some <==> fr_of_u64(1u64 << k) != zero_bytes(32),
        out matches Some(l) ==> {
            &&& l@.map_values(|v: Vec<u8>| v@) == lagrange_basis(
                g@.map_values(|v: Vec<u8>| v@),
                k,
            )
            &&& l@.len() == g@.len()
            &&& forall|i: int| 0 <= i < l@.len() ==> (#[trigger] l@[i])@.len() == 64
        },
{
    let omega_inv = compute_subgroup_root_inv(k);
    let fft = g1_fft(g, omega_inv.as_slice(), k);

    let n_bytes = fr_from_u64(1u64 << k);
    let n_inv = match fr_invert(n_bytes.as_slice()) {
        Some(v) => v,
        None => {
            return None;
        },
    };

    let count = fft.len();
    let mut out: Vec<Vec<u8>> = Vec::new();
    let ghost fft_seq = fft@.map_values(|v: Vec<u8>| v@);
    for i in 0..count
        invariant
            count == fft@.len(),
            fft_seq == fft@.map_values(|v: Vec<u8>| v@),
            n_inv@.len() == 32,
            n_inv@ == fr_inv_bytes(fr_of_u64(1u64 << k)),
            forall|j: int| 0 <= j < fft@.len() ==> (#[trigger] fft@[j])@.len() == 64,
            out@.len() == i,
            forall|j: int| 0 <= j < i ==> (#[trigger] out@[j])@ == g1_mul_bytes(
                fft_seq[j],
                fr_inv_bytes(fr_of_u64(1u64 << k)),
            ),
            forall|j: int| 0 <= j < i ==> (#[trigger] out@[j])@.len() == 64,
    {
        out.push(g1_mul(fft[i].as_slice(), n_inv.as_slice()));
    }
    proof {
        assert(out@.map_values(|v: Vec<u8>| v@) =~= lagrange_basis(
            g@.map_values(|v: Vec<u8>| v@),
            k,
        ));
    }
    Some(out)
}

impl KZGContribution {
    /// Serializes the record as downstream KZG parameters: `k`, the
    /// monomial basis, the Lagrange basis, `g2`, `s_g2`.  `None` exactly
    /// in the impossible case [`g_to_lagrange`] names.
    pub fn to_params(&self) -> (out: Option<Vec<u8>>)
        requires
            self.wf(),
            self.k <= FR_TWO_ADICITY,
        ensures
            out is Some <==> fr_of_u64(1u64 << self.k) != zero_bytes(32),
            out matches Some(bytes) ==> bytes@ == spec_u32_to_le_bytes(self.k) + concat_bytes(
                self.g_seq(),
            ) + concat_bytes(lagrange_basis(self.g_seq(), self.k)) + self.g2@ + self.s_g2@,
    {
        let lagrange = match g_to_lagrange(&self.g, self.k) {
            Some(l) => l,
            None => {
                return None;
            },
        };
        let ghost lseq = lagrange@.map_values(|v: Vec<u8>| v@);

        let mut out = u32_to_le_bytes(self.k);
        let ghost head = spec_u32_to_le_bytes(self.k);

        let n = self.g.len();
        proof {
            assert(self.g_seq().take(0) =~= Seq::<Seq<u8>>::empty());
            assert(out@ =~= head + concat_bytes(self.g_seq().take(0)));
        }
        for i in 0..n
            invariant
                self.wf(),
                n == self.g@.len(),
                out@ == head + concat_bytes(self.g_seq().take(i as int)),
        {
            let mut part = slice_to_vec(self.g[i].as_slice());
            out.append(&mut part);
            proof {
                assert(self.g_seq().take(i + 1).drop_last() =~= self.g_seq().take(i as int));
                assert(self.g_seq().take(i + 1).last() == self.g_seq()[i as int]);
                assert(out@ =~= head + concat_bytes(self.g_seq().take(i + 1)));
            }
        }
        proof {
            assert(self.g_seq().take(n as int) =~= self.g_seq());
        }

        let ghost mid = head + concat_bytes(self.g_seq());
        let m = lagrange.len();
        proof {
            assert(lseq.take(0) =~= Seq::<Seq<u8>>::empty());
            assert(out@ =~= mid + concat_bytes(lseq.take(0)));
        }
        for i in 0..m
            invariant
                m == lagrange@.len(),
                lseq == lagrange@.map_values(|v: Vec<u8>| v@),
                out@ == mid + concat_bytes(lseq.take(i as int)),
        {
            let mut part = slice_to_vec(lagrange[i].as_slice());
            out.append(&mut part);
            proof {
                assert(lseq.take(i + 1).drop_last() =~= lseq.take(i as int));
                assert(lseq.take(i + 1).last() == lseq[i as int]);
                assert(out@ =~= mid + concat_bytes(lseq.take(i + 1)));
            }
        }
        proof {
            assert(lseq.take(m as int) =~= lseq);
        }

        let mut part = slice_to_vec(self.g2.as_slice());
        out.append(&mut part);
        let mut part = slice_to_vec(self.s_g2.as_slice());
        out.append(&mut part);
        proof {
            assert(out@ =~= head + concat_bytes(self.g_seq()) + concat_bytes(
                lagrange_basis(self.g_seq(), self.k),
            ) + self.g2@ + self.s_g2@);
        }
        Some(out)
    }
}

} // verus!
