//! Chain bookkeeping: the fast id read and the id-keyed index of
//! contribution files.
//!
//! A contribution file's id can be recovered without decoding any group
//! element: the first four bytes must announce the ceremony's `k`, and the
//! last four hold the id.  The index maps each discovered id to its path,
//! keeps the entries sorted by id, and rejects a second file with the same
//! id.

use vstd::prelude::*;

use vstd::bytes::{spec_u32_from_le_bytes, u32_from_le_bytes};

use crate::CeremonyError;

verus! {

/// Recovers a contribution's id from its file length, its first four bytes
/// and its last four bytes.  A file shorter than eight bytes is
/// `Malformed`; a first word other than the ceremony's `k` is `WrongK`;
/// otherwise the id is the last word.
pub fn read_id(file_len: u64, first4: &[u8], last4: &[u8], ceremony_k: u32) -> (out: Result<
    u32,
    CeremonyError,
>)
    requires
        file_len >= 8 ==> first4@.len() == 4 && last4@.len() == 4,
    ensures
        file_len < 8 ==> out == Err::<u32, CeremonyError>(CeremonyError::Malformed),
        file_len >= 8 && spec_u32_from_le_bytes(first4@) != ceremony_k ==> out == Err::<
            u32,
            CeremonyError,
        >(CeremonyError::WrongK),
        file_len >= 8 && spec_u32_from_le_bytes(first4@) == ceremony_k ==> out == Ok::<
            u32,
            CeremonyError,
        >(spec_u32_from_le_bytes(last4@)),
{
    if file_len < 8 {
        return Err(CeremonyError::Malformed);
    }
    let k = u32_from_le_bytes(first4);
    if k != ceremony_k {
        return Err(CeremonyError::WrongK);
    }
    Ok(u32_from_le_bytes(last4))
}

/// The id-keyed index of the contribution files found in a directory:
/// entries of (id, path), kept in strictly ascending id order.
pub struct ContributionIndex {
    pub entries: Vec<(u32, String)>,
}

impl ContributionIndex {
    /// The ids of the index, in entry order.
    pub open spec fn ids(self) -> Seq<u32> {
        self.entries@.map_values(|e: (u32, String)| e.0)
    }

    /// The entries are strictly sorted by id, so ids are unique.
    pub open spec fn wf(self) -> bool {
        forall|i: int, j: int|
            0 <= i < j < self.entries@.len() ==> (#[trigger] self.entries@[i]).0 < (
            #[trigger] self.entries@[j]).0
    }

    /// An empty index.
    pub fn new() -> (out: Self)
        ensures
            out.wf(),
            out.entries@.len() == 0,
    {
        ContributionIndex { entries: Vec::new() }
    }

    /// How many files the index holds.
    pub fn len(&self) -> (out: usize)
        ensures
            out == self.entries@.len(),
    {
        self.entries.len()
    }

    /// The id at the given position.
    pub fn id_at(&self, i: usize) -> (out: u32)
        requires
            i < self.entries@.len(),
        ensures
            out == self.entries@[i as int].0,
    {
        self.entries[i].0
    }

    /// The path at the given position.
    pub fn path_at(&self, i: usize) -> (out: &String)
        requires
            i < self.entries@.len(),
        ensures
            out == self.entries@[i as int].1,
    {
        &self.entries[i].1
    }

    /// Records one discovered file.  A second file with an id already
    /// present is `DuplicateId` and leaves the index unchanged; otherwise
    /// the entry is inserted at its sorted position.
    pub fn insert(&mut self, id: u32, path: String) -> (out: Result<(), CeremonyError>)
        requires
            old(self).wf(),
        ensures
            final(self).wf(),
            out matches Err(e) ==> e == CeremonyError::DuplicateId && *final(self) == *old(self)
                && old(self).ids().contains(id),
            out is Ok ==> !old(self).ids().contains(id) && exists|p: int|
                0 <= p <= old(self).entries@.len() && final(self).entries@ == #[trigger] old(
                    self,
                ).entries@.insert(p, (id, path)),
    {
        let n = self.entries.len();
        let mut pos: usize = 0;
        while pos < n && self.entries[pos].0 < id
            invariant
                n == self.entries@.len(),
                pos <= n,
                forall|j: int| 0 <= j < pos ==> (#[trigger] self.entries@[j]).0 < id,
            decreases n - pos,
        {
            pos = pos + 1;
        }
        if pos < n && self.entries[pos].0 == id {
            proof {
                assert(self.ids()[pos as int] == id);
                assert(self.ids().contains(id));
            }
            return Err(CeremonyError::DuplicateId);
        }
        proof {
            assert forall|j: int| 0 <= j < self.entries@.len() implies (
            #[trigger] self.entries@[j]).0 != id by {
                if j >= pos {
                    assert(self.entries@[pos as int].0 < self.entries@[j].0 || j == pos);
                }
            }
            assert(!self.ids().contains(id)) by {
                if self.ids().contains(id) {
                    let w = choose|w: int| 0 <= w < self.ids().len() && self.ids()[w] == id;
                    assert(self.entries@[w].0 == id);
                }
            }
        }
        let ghost old_es = self.entries@;
        let ghost posi = pos as int;
        proof {
            assert(posi == old_es.len() || old_es[posi].0 > id);
        }
        self.entries.insert(pos, (id, path));
        proof {
            let es = self.entries@;
            assert forall|i: int, j: int| 0 <= i < j < es.len() implies (#[trigger] es[i]).0 < (
            #[trigger] es[j]).0 by {
                if i < posi {
                    assert(es[i] == old_es[i]);
                } else if i > posi {
                    assert(es[i] == old_es[i - 1]);
                }
                if j < posi {
                    assert(es[j] == old_es[j]);
                } else if j > posi {
                    assert(es[j] == old_es[j - 1]);
                }
                if i == posi && j > posi {
                    assert(old_es[j - 1].0 > id || j - 1 == posi);
                }
            }
        }
        Ok(())
    }

    /// The position of the highest id, if the index is not empty.
    pub fn last_pos(&self) -> (out: Option<usize>)
        requires
            self.wf(),
        ensures
            self.entries@.len() == 0 ==> out is None,
            self.entries@.len() > 0 ==> out == Some((self.entries@.len() - 1) as usize),
    {
        let n = self.entries.len();
        if n == 0 {
            None
        } else {
            Some(n - 1)
        }
    }
}

} // verus!
