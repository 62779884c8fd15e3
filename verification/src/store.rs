//! A model of the two storage tables, and the laws one import obeys
//! against them.
//!
//! Both tables key their rows by `id` and ignore an insert whose key is
//! already present (the upsert-if-absent / insert-if-absent writes of the
//! storage engine). Over that model the import's two deliberate rules are
//! proved: folder identity is client-chosen, so re-importing a bundle is a
//! no-op for folders; cipher identity is freshly minted, so re-importing
//! always adds new rows with the same content under new identities.

use vstd::prelude::*;
use crate::bundle::{CipherEntryView, FolderEntryView};
use crate::rows::{cipher_content, cipher_row_of, folder_row_of, CipherRowView, FolderRowView};

verus! {

/// One ignore-on-conflict insert: a present key keeps its row, silently.
pub open spec fn insert_if_absent<R>(
    tbl: Map<Seq<char>, R>,
    key: Seq<char>,
    row: R,
) -> Map<Seq<char>, R> {
    if tbl.dom().contains(key) {
        tbl
    } else {
        tbl.insert(key, row)
    }
}

/// One bulk batch applied in order, each row an ignore-on-conflict insert
/// under `key` of the row.
pub open spec fn apply_batch<R>(
    tbl: Map<Seq<char>, R>,
    rows: Seq<R>,
    key: spec_fn(R) -> Seq<char>,
) -> Map<Seq<char>, R>
    decreases rows.len(),
{
    if rows.len() == 0 {
        tbl
    } else {
        insert_if_absent(apply_batch(tbl, rows.drop_last(), key), key(rows.last()), rows.last())
    }
}

/// The key of a folder row: its client-chosen id.
pub open spec fn folder_key() -> spec_fn(FolderRowView) -> Seq<char> {
    |r: FolderRowView| r.id
}

/// The key of a cipher row: its freshly minted id.
pub open spec fn cipher_key() -> spec_fn(CipherRowView) -> Seq<char> {
    |r: CipherRowView| r.id
}

/// The folders table after one bulk folder write.
pub open spec fn apply_folder_batch(
    tbl: Map<Seq<char>, FolderRowView>,
    rows: Seq<FolderRowView>,
) -> Map<Seq<char>, FolderRowView> {
    apply_batch(tbl, rows, folder_key())
}

/// The ciphers table after one bulk cipher write.
pub open spec fn apply_cipher_batch(
    tbl: Map<Seq<char>, CipherRowView>,
    rows: Seq<CipherRowView>,
) -> Map<Seq<char>, CipherRowView> {
    apply_batch(tbl, rows, cipher_key())
}

/// A batch reaches exactly the keys of its rows: afterwards a key is
/// present iff it was present before or some row of the batch carries it.
pub proof fn lemma_apply_batch_domain<R>(
    tbl: Map<Seq<char>, R>,
    rows: Seq<R>,
    key: spec_fn(R) -> Seq<char>,
)
    ensures
        forall|k: Seq<char>| #[trigger] apply_batch(tbl, rows, key).dom().contains(k)
            <==> tbl.dom().contains(k) || (exists|i: int| 0 <= i < rows.len() && key(rows[i]) == k),
    decreases rows.len(),
{
    if rows.len() > 0 {
        lemma_apply_batch_domain(tbl, rows.drop_last(), key);
        assert forall|k: Seq<char>| #[trigger] apply_batch(tbl, rows, key).dom().contains(k)
            implies tbl.dom().contains(k) || (exists|i: int| 0 <= i < rows.len() && key(rows[i]) == k) by {
            if k == key(rows.last()) {
                assert(key(rows[rows.len() - 1]) == k);
            } else {
                assert(apply_batch(tbl, rows.drop_last(), key).dom().contains(k));
                if !tbl.dom().contains(k) {
                    let i = choose|i: int| 0 <= i < rows.drop_last().len() && key(rows.drop_last()[i]) == k;
                    assert(key(rows[i]) == k);
                }
            }
        }
        assert forall|k: Seq<char>|
            tbl.dom().contains(k) || (exists|i: int| 0 <= i < rows.len() && key(rows[i]) == k)
            implies #[trigger] apply_batch(tbl, rows, key).dom().contains(k) by {
            let t1 = apply_batch(tbl, rows.drop_last(), key);
            if !tbl.dom().contains(k) {
                let i = choose|i: int| 0 <= i < rows.len() && key(rows[i]) == k;
                if i < rows.len() - 1 {
                    assert(key(rows.drop_last()[i]) == k);
                    assert(t1.dom().contains(k));
                } else {
                    assert(key(rows.last()) == k);
                }
            } else {
                assert(t1.dom().contains(k));
            }
            assert(apply_batch(tbl, rows, key)
                == insert_if_absent(t1, key(rows.last()), rows.last()));
        }
    }
}

/// A batch every one of whose keys is already present changes nothing at
/// all: each insert is ignored.
pub proof fn lemma_apply_batch_noop<R>(
    tbl: Map<Seq<char>, R>,
    rows: Seq<R>,
    key: spec_fn(R) -> Seq<char>,
)
    requires
        forall|i: int| 0 <= i < rows.len() ==> tbl.dom().contains(#[trigger] key(rows[i])),
    ensures
        apply_batch(tbl, rows, key) == tbl,
    decreases rows.len(),
{
    if rows.len() > 0 {
        assert forall|i: int| 0 <= i < rows.drop_last().len()
            implies tbl.dom().contains(#[trigger] key(rows.drop_last()[i])) by {
            assert(rows.drop_last()[i] == rows[i]);
        }
        lemma_apply_batch_noop(tbl, rows.drop_last(), key);
        assert(key(rows[rows.len() - 1]) == key(rows.last()));
    }
}

/// A batch of distinct keys none of which is present lands whole: each row
/// is afterwards found under its key, and every pre-existing row is
/// untouched.
pub proof fn lemma_apply_batch_fresh<R>(
    tbl: Map<Seq<char>, R>,
    rows: Seq<R>,
    key: spec_fn(R) -> Seq<char>,
)
    requires
        forall|i: int, j: int| 0 <= i < j < rows.len() ==> key(rows[i]) != key(rows[j]),
        forall|i: int| 0 <= i < rows.len() ==> !tbl.dom().contains(#[trigger] key(rows[i])),
    ensures
        forall|i: int| 0 <= i < rows.len() ==> {
            let t = apply_batch(tbl, rows, key);
            t.dom().contains(#[trigger] key(rows[i])) && t[key(rows[i])] == rows[i]
        },
        forall|k: Seq<char>| #[trigger] tbl.dom().contains(k) ==> {
            let t = apply_batch(tbl, rows, key);
            t.dom().contains(k) && t[k] == tbl[k]
        },
    decreases rows.len(),
{
    if rows.len() > 0 {
        assert forall|i: int| 0 <= i < rows.drop_last().len()
            implies !tbl.dom().contains(#[trigger] key(rows.drop_last()[i])) by {
            assert(rows.drop_last()[i] == rows[i]);
        }
        assert forall|i: int, j: int| 0 <= i < j < rows.drop_last().len()
            implies key(rows.drop_last()[i]) != key(rows.drop_last()[j]) by {
            assert(rows.drop_last()[i] == rows[i]);
            assert(rows.drop_last()[j] == rows[j]);
        }
        lemma_apply_batch_fresh(tbl, rows.drop_last(), key);
        lemma_apply_batch_domain(tbl, rows.drop_last(), key);
        let t1 = apply_batch(tbl, rows.drop_last(), key);
        let last = rows.last();
        assert(!t1.dom().contains(key(last))) by {
            if t1.dom().contains(key(last)) {
                if !tbl.dom().contains(key(last)) {
                    let i = choose|i: int|
                        0 <= i < rows.drop_last().len() && key(rows.drop_last()[i]) == key(last);
                    assert(key(rows[i]) == key(rows[rows.len() - 1]));
                }
            }
        }
        assert forall|i: int| 0 <= i < rows.len() implies {
            let t = apply_batch(tbl, rows, key);
            t.dom().contains(#[trigger] key(rows[i])) && t[key(rows[i])] == rows[i]
        } by {
            if i < rows.len() - 1 {
                assert(rows.drop_last()[i] == rows[i]);
                assert(key(rows[i]) != key(rows[rows.len() - 1]));
            }
        }
    }
}

/// Law: folder import is idempotent. Submitting one import's folder rows
/// a second time leaves the table exactly as the first submission left it:
/// no duplicate row, no error, one row per distinct folder id (the table
/// keys rows by that id). Holds for any starting table, so it also holds
/// under interleaving with other imports' committed writes.
pub proof fn lemma_folder_import_idempotent(
    tbl: Map<Seq<char>, FolderRowView>,
    rows: Seq<FolderRowView>,
)
    ensures
        apply_folder_batch(apply_folder_batch(tbl, rows), rows) == apply_folder_batch(tbl, rows),
        forall|k: Seq<char>| #[trigger] apply_folder_batch(tbl, rows).dom().contains(k)
            <==> tbl.dom().contains(k) || (exists|i: int| 0 <= i < rows.len() && rows[i].id == k),
{
    let t1 = apply_folder_batch(tbl, rows);
    lemma_apply_batch_domain(tbl, rows, folder_key());
    assert forall|i: int| 0 <= i < rows.len()
        implies t1.dom().contains(#[trigger] folder_key()(rows[i])) by {
        assert(folder_key()(rows[i]) == rows[i].id);
    }
    lemma_apply_batch_noop(t1, rows, folder_key());
    assert forall|k: Seq<char>| #[trigger] t1.dom().contains(k)
        implies tbl.dom().contains(k) || (exists|i: int| 0 <= i < rows.len() && rows[i].id == k) by {
        if !tbl.dom().contains(k) {
            let i = choose|i: int| 0 <= i < rows.len() && folder_key()(rows[i]) == k;
            assert(rows[i].id == k);
        }
    }
    assert forall|k: Seq<char>|
        tbl.dom().contains(k) || (exists|i: int| 0 <= i < rows.len() && rows[i].id == k)
        implies #[trigger] t1.dom().contains(k) by {
        if !tbl.dom().contains(k) {
            let i = choose|i: int| 0 <= i < rows.len() && rows[i].id == k;
            assert(folder_key()(rows[i]) == k);
        }
    }
}

/// Law: cipher import is not idempotent, deliberately. Re-importing the
/// same entries under fresh identities adds a second row for every entry:
/// both rows are in the table, their identities differ, and their content
/// (everything but identity and timestamps) is identical.
pub proof fn lemma_cipher_reimport_duplicates_content(
    tbl: Map<Seq<char>, CipherRowView>,
    entries: Seq<CipherEntryView>,
    subject: Seq<char>,
    now1: Seq<char>,
    now2: Seq<char>,
    ids1: Seq<Seq<char>>,
    ids2: Seq<Seq<char>>,
)
    requires
        ids1.len() == entries.len(),
        ids2.len() == entries.len(),
        // the identities are freshly minted: distinct within each import,
        // across the two imports, and absent from the table
        forall|i: int, j: int| 0 <= i < j < ids1.len() ==> ids1[i] != ids1[j],
        forall|i: int, j: int| 0 <= i < j < ids2.len() ==> ids2[i] != ids2[j],
        forall|i: int, j: int| 0 <= i < ids1.len() && 0 <= j < ids2.len()
            ==> ids1[i] != ids2[j],
        forall|i: int| 0 <= i < ids1.len() ==> !tbl.dom().contains(#[trigger] ids1[i]),
        forall|i: int| 0 <= i < ids2.len() ==> !tbl.dom().contains(#[trigger] ids2[i]),
    ensures
        ({
            let rows1 = Seq::new(entries.len(), |i: int| cipher_row_of(entries[i], subject, now1, ids1[i]));
            let rows2 = Seq::new(entries.len(), |i: int| cipher_row_of(entries[i], subject, now2, ids2[i]));
            let t2 = apply_cipher_batch(apply_cipher_batch(tbl, rows1), rows2);
            forall|i: int| 0 <= i < entries.len() ==> {
                &&& t2.dom().contains(#[trigger] ids1[i])
                &&& t2.dom().contains(ids2[i])
                &&& ids1[i] != ids2[i]
                &&& t2[ids1[i]].id != t2[ids2[i]].id
                &&& cipher_content(t2[ids1[i]]) == cipher_content(t2[ids2[i]])
            }
        }),
{
    let rows1 = Seq::new(entries.len(), |i: int| cipher_row_of(entries[i], subject, now1, ids1[i]));
    let rows2 = Seq::new(entries.len(), |i: int| cipher_row_of(entries[i], subject, now2, ids2[i]));
    let t1 = apply_cipher_batch(tbl, rows1);
    let t2 = apply_cipher_batch(t1, rows2);
    assert(forall|i: int| 0 <= i < rows1.len() ==> #[trigger] cipher_key()(rows1[i]) == ids1[i]);
    assert(forall|i: int| 0 <= i < rows2.len() ==> #[trigger] cipher_key()(rows2[i]) == ids2[i]);
    assert forall|i: int, j: int| 0 <= i < j < rows1.len()
        implies cipher_key()(rows1[i]) != cipher_key()(rows1[j]) by {
        assert(cipher_key()(rows1[i]) == ids1[i]);
        assert(cipher_key()(rows1[j]) == ids1[j]);
    }
    assert forall|i: int, j: int| 0 <= i < j < rows2.len()
        implies cipher_key()(rows2[i]) != cipher_key()(rows2[j]) by {
        assert(cipher_key()(rows2[i]) == ids2[i]);
        assert(cipher_key()(rows2[j]) == ids2[j]);
    }
    assert forall|i: int| 0 <= i < rows1.len()
        implies !tbl.dom().contains(#[trigger] cipher_key()(rows1[i])) by {
        assert(cipher_key()(rows1[i]) == ids1[i]);
    }
    lemma_apply_batch_fresh(tbl, rows1, cipher_key());
    lemma_apply_batch_domain(tbl, rows1, cipher_key());
    assert forall|i: int| 0 <= i < rows2.len()
        implies !t1.dom().contains(#[trigger] cipher_key()(rows2[i])) by {
        assert(cipher_key()(rows2[i]) == ids2[i]);
        if t1.dom().contains(ids2[i]) && !tbl.dom().contains(ids2[i]) {
            let j = choose|j: int| 0 <= j < rows1.len() && cipher_key()(rows1[j]) == ids2[i];
            assert(cipher_key()(rows1[j]) == ids1[j]);
            assert(ids1[j] != ids2[i]);
        }
    }
    lemma_apply_batch_fresh(t1, rows2, cipher_key());
    assert forall|i: int| 0 <= i < entries.len() implies {
        &&& t2.dom().contains(#[trigger] ids1[i])
        &&& t2.dom().contains(ids2[i])
        &&& ids1[i] != ids2[i]
        &&& t2[ids1[i]].id != t2[ids2[i]].id
        &&& cipher_content(t2[ids1[i]]) == cipher_content(t2[ids2[i]])
    } by {
        assert(t1.dom().contains(cipher_key()(rows1[i])) && t1[cipher_key()(rows1[i])] == rows1[i]);
        assert(cipher_key()(rows1[i]) == ids1[i]);
        assert(t2.dom().contains(ids1[i]) && t2[ids1[i]] == rows1[i]);
        assert(t2.dom().contains(cipher_key()(rows2[i])) && t2[cipher_key()(rows2[i])] == rows2[i]);
        assert(cipher_key()(rows2[i]) == ids2[i]);
        assert(t2[ids2[i]] == rows2[i]);
    }
}

/// Law: every folder row and every cipher row one import writes carries
/// the same `created_at` and `updated_at`: the one request-wide timestamp,
/// never a per-row clock read.
pub proof fn lemma_timestamp_consistency(
    folders: Seq<FolderEntryView>,
    ciphers: Seq<CipherEntryView>,
    owner: Seq<char>,
    now: Seq<char>,
    ids: Seq<Seq<char>>,
)
    ensures
        forall|i: int| 0 <= i < folders.len() ==> {
            let row = #[trigger] folder_row_of(folders[i], owner, now);
            row.created_at == now && row.updated_at == now
        },
        forall|i: int, j: int| 0 <= i < ciphers.len() && 0 <= j < ids.len() ==> {
            let row = #[trigger] cipher_row_of(ciphers[i], owner, now, ids[j]);
            row.created_at == now && row.updated_at == now
        },
{
}

} // verus!
