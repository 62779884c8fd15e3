//! The relationship resolver: attaching folder identities to cipher entries.
//!
//! Each relationship pair names a cipher position and a folder position of
//! the same bundle. Pairs whose indices are both in range assign the
//! folder's id to the cipher's `folder_id`; out-of-range pairs are a
//! defined no-op. Pairs apply strictly in submission order, so a later
//! pair naming the same cipher overwrites the earlier assignment
//! (last-write-wins). The step touches no storage: it only rewrites the
//! in-memory entries that the cipher materializer then reads.

use vstd::prelude::*;
use crate::bundle::{CipherEntry, CipherEntryView, FolderEntry, FolderEntryView, Relationship, RelationshipView};

verus! {

/// The folder assignment cipher position `i` ends with, starting from
/// `orig`, once all of `rels` have been applied in order: the folder id
/// named by the last in-range pair for `i`, or `orig` if no such pair
/// exists.
pub open spec fn resolved_folder_id(
    orig: Option<Seq<char>>,
    i: int,
    folders: Seq<FolderEntryView>,
    rels: Seq<RelationshipView>,
) -> Option<Seq<char>>
    decreases rels.len(),
{
    if rels.len() == 0 {
        orig
    } else {
        let r = rels.last();
        if r.cipher_index == i && 0 <= r.folder_index < folders.len() {
            Option::Some(folders[r.folder_index].id)
        } else {
            resolved_folder_id(orig, i, folders, rels.drop_last())
        }
    }
}

/// Cipher entry `i` after resolution: only `folder_id` can change, and it
/// changes to `resolved_folder_id`.
pub open spec fn resolved_entry(
    e: CipherEntryView,
    i: int,
    folders: Seq<FolderEntryView>,
    rels: Seq<RelationshipView>,
) -> CipherEntryView {
    CipherEntryView {
        folder_id: resolved_folder_id(e.folder_id, i, folders, rels),
        ..e
    }
}

/// Applies the bundle's relationship pairs to its cipher entries, in
/// submission order.
///
/// Afterwards entry `i` is exactly `resolved_entry` of its old value:
/// every field but `folder_id` is untouched, and `folder_id` carries the
/// id of the folder named by the last in-range pair for `i` (its old
/// value where no pair applies — out-of-range pairs change nothing).
pub fn resolve_relationships(
    ciphers: &mut Vec<CipherEntry>,
    folders: &Vec<FolderEntry>,
    rels: &Vec<Relationship>,
)
    ensures
        final(ciphers).deep_view().len() == old(ciphers).deep_view().len(),
        forall|i: int| 0 <= i < old(ciphers).deep_view().len()
            ==> final(ciphers).deep_view()[i]
                == resolved_entry(old(ciphers).deep_view()[i], i, folders.deep_view(), rels.deep_view()),
{
    let n = rels.len();
    let mut k: usize = 0;
    while k < n
        invariant
            k <= n,
            n == rels.deep_view().len(),
            ciphers.deep_view().len() == old(ciphers).deep_view().len(),
            forall|i: int| 0 <= i < old(ciphers).deep_view().len()
                ==> ciphers.deep_view()[i]
                    == resolved_entry(old(ciphers).deep_view()[i], i, folders.deep_view(), rels.deep_view().take(k as int)),
        decreases n - k,
    {
        let ghost prev = ciphers.deep_view();
        let cipher_index = rels[k].cipher_index;
        let folder_index = rels[k].folder_index;
        if cipher_index < ciphers.len() && folder_index < folders.len() {
            let fid = folders[folder_index].id.clone();
            ciphers[cipher_index].folder_id = Some(fid);
            proof {
                assert(ciphers.deep_view() =~= prev.update(
                    cipher_index as int,
                    CipherEntryView { folder_id: Option::Some(fid@), ..prev[cipher_index as int] },
                ));
            }
        }
        proof {
            let relsv = rels.deep_view();
            let cv = old(ciphers).deep_view();
            let fv = folders.deep_view();
            assert(relsv.take(k + 1 as int).drop_last() =~= relsv.take(k as int));
            assert(relsv.take(k + 1 as int).last() == relsv[k as int]);
            assert forall|i: int| 0 <= i < cv.len()
                implies ciphers.deep_view()[i] == resolved_entry(cv[i], i, fv, relsv.take(k + 1 as int)) by {
                let r = relsv[k as int];
                if r.cipher_index == i && 0 <= r.folder_index < fv.len() {
                    assert(ciphers.deep_view()[i].folder_id == Option::Some(fv[r.folder_index].id));
                } else {
                    assert(ciphers.deep_view()[i] == prev[i]);
                }
            }
        }
        k = k + 1;
    }
    proof {
        assert(rels.deep_view().take(n as int) =~= rels.deep_view());
    }
}

} // verus!
