use std::collections::HashMap;

use vault_import::batch::{coordinate_batch, BatchAction};
use vault_import::bundle::{CipherEntry, FolderEntry, Relationship};
use vault_import::ciphers::{build_cipher_row, import_ciphers, materialize_ciphers};
use vault_import::encode::encode_payload;
use vault_import::fault::ImportFault;
use vault_import::folders::materialize_folders;
use vault_import::resolve::resolve_relationships;
use vault_import::rows::{CipherRow, FolderRow};

fn entry(owner: &str, name: &str) -> CipherEntry {
    CipherEntry {
        owner_claim: owner.to_string(),
        cipher_type: 1,
        name: name.to_string(),
        notes: None,
        login: None,
        card: None,
        identity: None,
        secure_note: None,
        fields: None,
        password_history: None,
        reprompt: 0,
        favorite: false,
        organization_id: None,
        folder_id: None,
    }
}

fn folder(id: &str, name: &str) -> FolderEntry {
    FolderEntry { id: id.to_string(), name: name.to_string() }
}

/// Insert-or-ignore on id: what the storage engine does with one batch.
fn apply_folder_rows(table: &mut HashMap<String, FolderRow>, rows: Vec<FolderRow>) {
    for row in rows {
        table.entry(row.id.clone()).or_insert(row);
    }
}

fn apply_cipher_rows(table: &mut HashMap<String, CipherRow>, rows: Vec<CipherRow>) {
    for row in rows {
        table.entry(row.id.clone()).or_insert(row);
    }
}

#[test]
fn folder_rows_preserve_identity_and_owner() {
    let entries = vec![folder("f-one", "enc-name-1"), folder("f-two", "enc-name-2")];
    let owner = "user-1".to_string();
    let now = "2024-01-02T03:04:05.678Z".to_string();
    let rows = materialize_folders(&entries, &owner, &now);
    assert_eq!(rows.len(), 2);
    assert_eq!(rows[0].id, "f-one");
    assert_eq!(rows[0].owner_id, "user-1");
    assert_eq!(rows[0].name, "enc-name-1");
    assert_eq!(rows[0].created_at, now);
    assert_eq!(rows[0].updated_at, now);
    assert_eq!(rows[1].id, "f-two");
}

#[test]
fn repeat_folder_import_is_idempotent() {
    let entries = vec![folder("f-one", "n1"), folder("f-two", "n2")];
    let owner = "user-1".to_string();
    let now = "t0".to_string();
    let mut table: HashMap<String, FolderRow> = HashMap::new();
    apply_folder_rows(&mut table, materialize_folders(&entries, &owner, &now));
    assert_eq!(table.len(), 2);
    let later = "t1".to_string();
    apply_folder_rows(&mut table, materialize_folders(&entries, &owner, &later));
    assert_eq!(table.len(), 2);
    assert_eq!(table.get("f-one").unwrap().created_at, "t0");
    assert_eq!(table.get("f-two").unwrap().name, "n2");
}

#[test]
fn repeat_cipher_import_duplicates_with_fresh_identity() {
    let entries = vec![entry("user-1", "enc-a"), entry("user-1", "enc-b")];
    let subject = "user-1".to_string();
    let now = "t0".to_string();
    let mut table: HashMap<String, CipherRow> = HashMap::new();
    let first = import_ciphers(&entries, &subject, &now).unwrap();
    let first_ids: Vec<String> = first.iter().map(|r| r.id.clone()).collect();
    apply_cipher_rows(&mut table, first);
    let second = import_ciphers(&entries, &subject, &now).unwrap();
    let second_ids: Vec<String> = second.iter().map(|r| r.id.clone()).collect();
    apply_cipher_rows(&mut table, second);
    assert_eq!(table.len(), 4);
    for i in 0..2 {
        assert_ne!(first_ids[i], second_ids[i]);
        let a = table.get(&first_ids[i]).unwrap();
        let b = table.get(&second_ids[i]).unwrap();
        assert_eq!(a.data, b.data);
        assert_eq!(a.owner_id, b.owner_id);
        assert_eq!(a.cipher_type, b.cipher_type);
        assert_eq!(a.favorite, b.favorite);
        assert_eq!(a.folder_id, b.folder_id);
    }
}

#[test]
fn wrong_owner_rejects_whole_import() {
    let entries = vec![entry("user-1", "good"), entry("someone-else", "bad"), entry("user-1", "late")];
    let subject = "user-1".to_string();
    let now = "t0".to_string();
    let r = import_ciphers(&entries, &subject, &now);
    match r {
        Err(f) => {
            assert_eq!(f, ImportFault::Ownership);
            assert!(f.is_client_fault());
            assert_eq!(f.message(), "Cipher encrypted for wrong user");
        },
        Ok(_) => panic!("an entry declared for another owner must reject the import"),
    }
}

#[test]
fn relationship_assigns_folder_to_cipher() {
    let folders = vec![folder("F0", "n0"), folder("F1", "n1")];
    let mut ciphers = vec![entry("u", "C0"), entry("u", "C1")];
    let rels = vec![Relationship { cipher_index: 1, folder_index: 0 }];
    resolve_relationships(&mut ciphers, &folders, &rels);
    assert_eq!(ciphers[0].folder_id, None);
    assert_eq!(ciphers[1].folder_id, Some("F0".to_string()));
}

#[test]
fn later_relationship_overwrites_earlier_one() {
    let folders = vec![folder("F0", "n0"), folder("F1", "n1")];
    let mut ciphers = vec![entry("u", "C0")];
    let rels = vec![
        Relationship { cipher_index: 0, folder_index: 1 },
        Relationship { cipher_index: 0, folder_index: 0 },
    ];
    resolve_relationships(&mut ciphers, &folders, &rels);
    assert_eq!(ciphers[0].folder_id, Some("F0".to_string()));
}

#[test]
fn out_of_range_relationship_is_ignored() {
    let folders = vec![folder("F0", "n0"), folder("F1", "n1")];
    let mut ciphers = vec![entry("u", "C0"), entry("u", "C1")];
    ciphers[1].folder_id = Some("kept".to_string());
    let rels = vec![
        Relationship { cipher_index: 0, folder_index: 5 },
        Relationship { cipher_index: 1, folder_index: 5 },
        Relationship { cipher_index: 7, folder_index: 0 },
    ];
    resolve_relationships(&mut ciphers, &folders, &rels);
    assert_eq!(ciphers[0].folder_id, None);
    assert_eq!(ciphers[1].folder_id, Some("kept".to_string()));
}

#[test]
fn empty_bundle_makes_no_storage_call() {
    let folders: Vec<FolderEntry> = Vec::new();
    let ciphers: Vec<CipherEntry> = Vec::new();
    let owner = "user-1".to_string();
    let now = "t0".to_string();
    let folder_rows = materialize_folders(&folders, &owner, &now);
    assert!(folder_rows.is_empty());
    match coordinate_batch(folder_rows) {
        BatchAction::Skip => {},
        BatchAction::Submit(_) => panic!("an empty batch must short-circuit"),
    }
    let cipher_rows = import_ciphers(&ciphers, &owner, &now).unwrap();
    assert!(cipher_rows.is_empty());
    match coordinate_batch(cipher_rows) {
        BatchAction::Skip => {},
        BatchAction::Submit(_) => panic!("an empty batch must short-circuit"),
    }
}

#[test]
fn nonempty_batch_is_submitted_whole_and_in_order() {
    let entries = vec![folder("a", "n1"), folder("b", "n2")];
    let owner = "u".to_string();
    let now = "t0".to_string();
    let rows = materialize_folders(&entries, &owner, &now);
    match coordinate_batch(rows) {
        BatchAction::Submit(v) => {
            assert_eq!(v.len(), 2);
            assert_eq!(v[0].id, "a");
            assert_eq!(v[1].id, "b");
        },
        BatchAction::Skip => panic!("a non-empty batch must be submitted"),
    }
}

#[test]
fn one_import_uses_one_timestamp_everywhere() {
    let folders = vec![folder("f", "n")];
    let ciphers = vec![entry("u", "a"), entry("u", "b")];
    let owner = "u".to_string();
    let now = "2024-05-06T07:08:09.100Z".to_string();
    let folder_rows = materialize_folders(&folders, &owner, &now);
    let cipher_rows = import_ciphers(&ciphers, &owner, &now).unwrap();
    for r in &folder_rows {
        assert_eq!(r.created_at, now);
        assert_eq!(r.updated_at, now);
    }
    for r in &cipher_rows {
        assert_eq!(r.created_at, now);
        assert_eq!(r.updated_at, now);
    }
}

#[test]
fn minted_cipher_identity_is_a_36_character_uuid() {
    let entries = vec![entry("u", "a")];
    let subject = "u".to_string();
    let now = "t0".to_string();
    let rows = import_ciphers(&entries, &subject, &now).unwrap();
    assert_eq!(rows[0].id.len(), 36);
    assert_eq!(rows[0].id.chars().filter(|c| *c == '-').count(), 4);
}

#[test]
fn cipher_row_carries_entry_fields_and_creation_defaults() {
    let mut e = entry("user-1", "enc-name");
    e.organization_id = Some("org-9".to_string());
    e.favorite = true;
    e.folder_id = Some("f-3".to_string());
    e.cipher_type = 3;
    let subject = "user-1".to_string();
    let now = "t0".to_string();
    let row = build_cipher_row(&e, &subject, &now, "fixed-id".to_string());
    assert_eq!(row.id, "fixed-id");
    assert_eq!(row.owner_id, "user-1");
    assert_eq!(row.organization_id, Some("org-9".to_string()));
    assert_eq!(row.cipher_type, 3);
    assert!(row.favorite);
    assert_eq!(row.folder_id, Some("f-3".to_string()));
    assert_eq!(row.deleted_at, None);
    assert!(row.edit);
    assert!(row.view_password);
    assert!(!row.organization_use_totp);
    assert_eq!(row.created_at, "t0");
    assert_eq!(row.updated_at, "t0");
}

#[test]
fn materialize_ciphers_uses_the_given_identities_in_order() {
    let entries = vec![entry("u", "a"), entry("u", "b")];
    let subject = "u".to_string();
    let now = "t0".to_string();
    let ids = vec!["id-0".to_string(), "id-1".to_string()];
    let rows = materialize_ciphers(&entries, &subject, &now, &ids).unwrap();
    assert_eq!(rows[0].id, "id-0");
    assert_eq!(rows[1].id, "id-1");
}

#[test]
fn fault_kinds_are_distinguishable() {
    assert!(ImportFault::Ownership.is_client_fault());
    assert!(!ImportFault::Serialization.is_client_fault());
    assert!(!ImportFault::Storage.is_client_fault());
    assert_ne!(ImportFault::Serialization, ImportFault::Storage);
    assert_eq!(ImportFault::Serialization.message(), "internal error");
    assert_eq!(ImportFault::Storage.message(), "database error");
}
