//! Small byte- and character-string utilities shared by the codec, the
//! verifiers and the formatters.

use vstd::prelude::*;

use crate::curve::zero_bytes;

verus! {

/// Relies on `String::push` of std: it appends one character.
#[verifier::external_body]
pub(crate) fn string_push_char(s: &mut String, c: char)
    ensures
        final(s)@ == old(s)@ + seq![c],
{
    s.push(c);
}

/// Byte-for-byte equality of two slices.
pub fn bytes_eq(a: &[u8], b: &[u8]) -> (r: bool)
    ensures
        r <==> a@ == b@,
{
    if a.len() != b.len() {
        assert(a@.len() != b@.len());
        return false;
    }
    let n = a.len();
    for i in 0..n
        invariant
            n == a@.len(),
            n == b@.len(),
            forall|j: int| 0 <= j < i ==> a@[j] == b@[j],
    {
        if a[i] != b[i] {
            return false;
        }
    }
    assert(a@ =~= b@);
    true
}

/// Whether every byte of the slice is zero, i.e. whether the slice is the
/// raw encoding of a group identity or of the zero scalar.
pub fn is_zero_bytes(a: &[u8]) -> (r: bool)
    ensures
        r <==> a@ == zero_bytes(a@.len()),
{
    let n = a.len();
    for i in 0..n
        invariant
            n == a@.len(),
            forall|j: int| 0 <= j < i ==> a@[j] == 0u8,
    {
        if a[i] != 0 {
            assert(a@ != zero_bytes(a@.len()));
            return false;
        }
    }
    assert(a@ =~= zero_bytes(a@.len()));
    true
}

} // verus!
