//! Durable rows: what one import writes to storage.
//!
//! A folder row keeps the client-chosen folder identity (the idempotency
//! key); a cipher row carries a freshly minted identity and the serialized
//! payload. Both carry the single request-wide timestamp in `created_at`
//! and `updated_at`.

use vstd::prelude::*;
use crate::bundle::{CipherEntryView, FolderEntryView};
use crate::encode::payload_text;

verus! {

/// A durable folder row, ready for the bulk upsert-if-absent write.
pub struct FolderRow {
    pub id: String,
    pub owner_id: String,
    pub name: String,
    pub created_at: String,
    pub updated_at: String,
}

/// Spec-level image of a folder row.
pub ghost struct FolderRowView {
    pub id: Seq<char>,
    pub owner_id: Seq<char>,
    pub name: Seq<char>,
    pub created_at: Seq<char>,
    pub updated_at: Seq<char>,
}

impl View for FolderRow {
    type V = FolderRowView;

    open spec fn view(&self) -> FolderRowView {
        FolderRowView {
            id: self.id@,
            owner_id: self.owner_id@,
            name: self.name@,
            created_at: self.created_at@,
            updated_at: self.updated_at@,
        }
    }
}

impl DeepView for FolderRow {
    type V = FolderRowView;

    open spec fn deep_view(&self) -> FolderRowView {
        self.view()
    }
}

/// The folder row a bundle entry materializes to: identity preserved from
/// the entry, ownership set to the caller, both timestamps the request-wide
/// value.
pub open spec fn folder_row_of(e: FolderEntryView, owner: Seq<char>, now: Seq<char>) -> FolderRowView {
    FolderRowView {
        id: e.id,
        owner_id: owner,
        name: e.name,
        created_at: now,
        updated_at: now,
    }
}

/// A durable cipher row, ready for the bulk insert write.
///
/// `deleted_at` and the presentation flags (`edit`, `view_password`,
/// `organization_use_totp`) are fixed at creation and not taken from the
/// bundle.
pub struct CipherRow {
    pub id: String,
    pub owner_id: String,
    pub organization_id: Option<String>,
    pub cipher_type: u32,
    pub data: String,
    pub favorite: bool,
    pub folder_id: Option<String>,
    pub deleted_at: Option<String>,
    pub edit: bool,
    pub view_password: bool,
    pub organization_use_totp: bool,
    pub created_at: String,
    pub updated_at: String,
}

/// Spec-level image of a cipher row.
pub ghost struct CipherRowView {
    pub id: Seq<char>,
    pub owner_id: Seq<char>,
    pub organization_id: Option<Seq<char>>,
    pub cipher_type: u32,
    pub data: Seq<char>,
    pub favorite: bool,
    pub folder_id: Option<Seq<char>>,
    pub deleted_at: Option<Seq<char>>,
    pub edit: bool,
    pub view_password: bool,
    pub organization_use_totp: bool,
    pub created_at: Seq<char>,
    pub updated_at: Seq<char>,
}

impl View for CipherRow {
    type V = CipherRowView;

    open spec fn view(&self) -> CipherRowView {
        CipherRowView {
            id: self.id@,
            owner_id: self.owner_id@,
            organization_id: self.organization_id.deep_view(),
            cipher_type: self.cipher_type,
            data: self.data@,
            favorite: self.favorite,
            folder_id: self.folder_id.deep_view(),
            deleted_at: self.deleted_at.deep_view(),
            edit: self.edit,
            view_password: self.view_password,
            organization_use_totp: self.organization_use_totp,
            created_at: self.created_at@,
            updated_at: self.updated_at@,
        }
    }
}

impl DeepView for CipherRow {
    type V = CipherRowView;

    open spec fn deep_view(&self) -> CipherRowView {
        self.view()
    }
}

/// The cipher row a (resolver-adjusted) bundle entry materializes to, given
/// the freshly minted identity `id`: ownership set to the caller, the
/// payload serialized from the entry's opaque fields, `deleted_at` absent,
/// presentation flags at their creation defaults, both timestamps the
/// request-wide value.
pub open spec fn cipher_row_of(e: CipherEntryView, subject: Seq<char>, now: Seq<char>, id: Seq<char>) -> CipherRowView {
    CipherRowView {
        id: id,
        owner_id: subject,
        organization_id: e.organization_id,
        cipher_type: e.cipher_type,
        data: payload_text(e),
        favorite: e.favorite,
        folder_id: e.folder_id,
        deleted_at: None,
        edit: true,
        view_password: true,
        organization_use_totp: false,
        created_at: now,
        updated_at: now,
    }
}

/// What a cipher row says apart from its minted identity and the
/// request-wide timestamps: the part that re-importing the same entry
/// reproduces exactly.
pub ghost struct CipherContentView {
    pub owner_id: Seq<char>,
    pub organization_id: Option<Seq<char>>,
    pub cipher_type: u32,
    pub data: Seq<char>,
    pub favorite: bool,
    pub folder_id: Option<Seq<char>>,
    pub deleted_at: Option<Seq<char>>,
    pub edit: bool,
    pub view_password: bool,
    pub organization_use_totp: bool,
}

/// The identity- and timestamp-free content of a cipher row.
pub open spec fn cipher_content(r: CipherRowView) -> CipherContentView {
    CipherContentView {
        owner_id: r.owner_id,
        organization_id: r.organization_id,
        cipher_type: r.cipher_type,
        data: r.data,
        favorite: r.favorite,
        folder_id: r.folder_id,
        deleted_at: r.deleted_at,
        edit: r.edit,
        view_password: r.view_password,
        organization_use_totp: r.organization_use_totp,
    }
}

/// Holds when `row` is the materialization of `e` under some identity:
/// everything but the identity itself is pinned by the entry, the caller
/// and the timestamp.
pub open spec fn cipher_row_matches(row: CipherRowView, e: CipherEntryView, subject: Seq<char>, now: Seq<char>) -> bool {
    row == cipher_row_of(e, subject, now, row.id)
}

} // verus!
