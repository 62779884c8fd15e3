//! The cipher materializer: validated, freshly identified rows.
//!
//! Every cipher entry must be declared for the authenticated caller; one
//! mismatch rejects the whole phase before any row exists. Each accepted
//! entry becomes a row under a freshly minted random identity — cipher
//! identity is never reused across imports, which is the deliberate
//! asymmetry against the idempotent folder side.

use vstd::prelude::*;
use crate::bundle::CipherEntry;
use crate::encode::encode_payload;
use crate::fault::ImportFault;
use crate::rows::{cipher_row_matches, cipher_row_of, CipherRow};

verus! {

/// Relies on uuid's `Uuid::new_v4` (a random 128-bit version-4 identifier)
/// and its `Display` form (lower-case hyphenated, always 36 characters).
/// The result is random: no two calls are related by contract.
#[verifier::external_body]
fn fresh_cipher_id() -> (id: String)
    ensures
        id@.len() == 36,
{
    uuid::Uuid::new_v4().to_string()
}

/// Builds the durable row for one cipher entry under the identity `id`.
///
/// The row is exactly `cipher_row_of` the entry: ownership set to the
/// caller, the payload serialized from the opaque client fields,
/// `deleted_at` absent, presentation flags at their creation defaults,
/// both timestamps the request-wide value.
pub fn build_cipher_row(e: &CipherEntry, subject: &String, now: &String, id: String) -> (row: CipherRow)
    ensures
        row@ == cipher_row_of(e@, subject@, now@, id@),
{
    let data = encode_payload(e);
    CipherRow {
        id: id,
        owner_id: subject.clone(),
        organization_id: e.organization_id.clone(),
        cipher_type: e.cipher_type,
        data: data,
        favorite: e.favorite,
        folder_id: e.folder_id.clone(),
        deleted_at: None,
        edit: true,
        view_password: true,
        organization_use_totp: false,
        created_at: now.clone(),
        updated_at: now.clone(),
    }
}

/// Materializes all cipher entries under the given fresh identities, in
/// submission order.
///
/// Succeeds exactly when every entry's declared owner is the caller; row
/// `i` is then `cipher_row_of` entry `i` under `ids[i]`. One mismatch
/// rejects the whole phase with the ownership fault — no rows come back,
/// not even for earlier entries that passed.
pub fn materialize_ciphers(
    entries: &Vec<CipherEntry>,
    subject: &String,
    now: &String,
    ids: &Vec<String>,
) -> (r: Result<Vec<CipherRow>, ImportFault>)
    requires
        ids.deep_view().len() == entries.deep_view().len(),
    ensures
        r is Ok <==> (forall|i: int| 0 <= i < entries.deep_view().len()
            ==> (#[trigger] entries.deep_view()[i]).owner_claim == subject@),
        r is Err ==> r->Err_0 == ImportFault::Ownership,
        r is Ok ==> r->Ok_0.deep_view().len() == entries.deep_view().len(),
        r is Ok ==> forall|i: int| 0 <= i < entries.deep_view().len()
            ==> #[trigger] r->Ok_0.deep_view()[i]
                == cipher_row_of(entries.deep_view()[i], subject@, now@, ids.deep_view()[i]),
{
    let mut rows: Vec<CipherRow> = Vec::new();
    let len = entries.len();
    let mut i: usize = 0;
    while i < len
        invariant
            i <= len,
            len == entries.deep_view().len(),
            ids.deep_view().len() == len,
            rows.deep_view().len() == i,
            forall|j: int| 0 <= j < i
                ==> (#[trigger] entries.deep_view()[j]).owner_claim == subject@,
            forall|j: int| 0 <= j < i
                ==> #[trigger] rows.deep_view()[j]
                    == cipher_row_of(entries.deep_view()[j], subject@, now@, ids.deep_view()[j]),
        decreases len - i,
    {
        let entry = &entries[i];
        if !(entry.owner_claim == *subject) {
            proof {
                assert(entries.deep_view()[i as int].owner_claim != subject@);
            }
            return Err(ImportFault::Ownership);
        }
        let ghost prev = rows.deep_view();
        let id = ids[i].clone();
        let row = build_cipher_row(entry, subject, now, id);
        rows.push(row);
        proof {
            assert(rows.deep_view() =~= prev.push(row@));
        }
        i = i + 1;
    }
    Ok(rows)
}

/// Materializes all cipher entries, minting a fresh random identity for
/// each, in submission order.
///
/// Succeeds exactly when every entry's declared owner is the caller; row
/// `i` then matches entry `i` (`cipher_row_matches`) under some 36
/// character identity. One mismatch rejects the whole phase with the
/// ownership fault and no rows come back.
pub fn import_ciphers(entries: &Vec<CipherEntry>, subject: &String, now: &String) -> (r: Result<
    Vec<CipherRow>,
    ImportFault,
>)
    ensures
        r is Ok <==> (forall|i: int| 0 <= i < entries.deep_view().len()
            ==> (#[trigger] entries.deep_view()[i]).owner_claim == subject@),
        r is Err ==> r->Err_0 == ImportFault::Ownership,
        r is Ok ==> r->Ok_0.deep_view().len() == entries.deep_view().len(),
        r is Ok ==> forall|i: int| 0 <= i < entries.deep_view().len()
            ==> cipher_row_matches(
                #[trigger] r->Ok_0.deep_view()[i],
                entries.deep_view()[i],
                subject@,
                now@,
            ) && r->Ok_0.deep_view()[i].id.len() == 36,
{
    let mut ids: Vec<String> = Vec::new();
    let len = entries.len();
    while ids.len() < len
        invariant
            ids.deep_view().len() <= len,
            len == entries.deep_view().len(),
            forall|j: int| 0 <= j < ids.deep_view().len()
                ==> (#[trigger] ids.deep_view()[j]).len() == 36,
        decreases len - ids.len(),
    {
        let ghost prev = ids.deep_view();
        let id = fresh_cipher_id();
        ids.push(id);
        proof {
            assert(ids.deep_view() =~= prev.push(id@));
        }
    }
    let ghost idsv = ids.deep_view();
    let r = materialize_ciphers(entries, subject, now, &ids);
    proof {
        if r is Ok {
            assert forall|i: int| 0 <= i < entries.deep_view().len()
                implies cipher_row_matches(
                #[trigger] r->Ok_0.deep_view()[i],
                entries.deep_view()[i],
                subject@,
                now@,
            ) && r->Ok_0.deep_view()[i].id.len() == 36 by {
                assert(r->Ok_0.deep_view()[i]
                    == cipher_row_of(entries.deep_view()[i], subject@, now@, idsv[i]));
            }
        }
    }
    r
}

} // verus!
