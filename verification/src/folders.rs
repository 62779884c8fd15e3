//! The folder materializer: one durable row per bundle folder entry.
//!
//! Folder identity is client-chosen and preserved (never regenerated), so a
//! repeat import offers the same row ids again and storage's ignore-on-
//! conflict rule keeps them single. Every row is owned by the caller and
//! stamped with the one request-wide timestamp.

use vstd::prelude::*;
use crate::bundle::FolderEntry;
use crate::rows::{folder_row_of, FolderRow};

verus! {

/// Turns the bundle's folder entries into durable rows for the caller.
///
/// Row `i` is exactly `folder_row_of` entry `i`: id preserved from the
/// entry, `owner_id` set to the caller, both timestamps equal to `now`.
/// An empty bundle yields an empty batch (which the persistence step must
/// then skip).
pub fn materialize_folders(entries: &Vec<FolderEntry>, owner: &String, now: &String) -> (rows: Vec<FolderRow>)
    ensures
        rows.deep_view().len() == entries.deep_view().len(),
        forall|i: int| 0 <= i < entries.deep_view().len()
            ==> rows.deep_view()[i] == folder_row_of(entries.deep_view()[i], owner@, now@),
{
    let mut rows: Vec<FolderRow> = Vec::new();
    let len = entries.len();
    let mut i: usize = 0;
    while i < len
        invariant
            i <= len,
            len == entries.deep_view().len(),
            rows.deep_view().len() == i,
            forall|j: int| 0 <= j < i
                ==> rows.deep_view()[j] == folder_row_of(entries.deep_view()[j], owner@, now@),
        decreases len - i,
    {
        let ghost prev = rows.deep_view();
        let entry = &entries[i];
        let row = FolderRow {
            id: entry.id.clone(),
            owner_id: owner.clone(),
            name: entry.name.clone(),
            created_at: now.clone(),
            updated_at: now.clone(),
        };
        rows.push(row);
        proof {
            assert(rows.deep_view() =~= prev.push(row@));
            assert(row@ == folder_row_of(entries.deep_view()[i as int], owner@, now@));
        }
        i = i + 1;
    }
    rows
}

} // verus!

