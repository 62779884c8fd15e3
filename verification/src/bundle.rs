//! The bundle model: the request-scoped shape of one bulk import.
//!
//! A bundle holds ordered folder entries, ordered cipher entries, and
//! index-pair relationships that link a cipher entry to a folder entry of the
//! same bundle. Order defines the positional indices the relationships use.
//! All encrypted material (names, notes, the record substructures) is carried
//! opaquely: the server never decrypts, it only moves the blobs into rows.

use vstd::prelude::*;

verus! {

/// One folder of the bundle: a client-chosen stable identifier and an
/// (already encrypted) display name.
pub struct FolderEntry {
    pub id: String,
    pub name: String,
}

/// Spec-level image of a folder entry.
pub ghost struct FolderEntryView {
    pub id: Seq<char>,
    pub name: Seq<char>,
}

impl View for FolderEntry {
    type V = FolderEntryView;

    open spec fn view(&self) -> FolderEntryView {
        FolderEntryView { id: self.id@, name: self.name@ }
    }
}

impl DeepView for FolderEntry {
    type V = FolderEntryView;

    open spec fn deep_view(&self) -> FolderEntryView {
        self.view()
    }
}

/// One encrypted record of the bundle.
///
/// `owner_claim` is the owner the client declared for this record; it must
/// match the authenticated caller or the whole cipher phase is rejected.
/// The payload substructures (`login`, `card`, `identity`, `secure_note`,
/// `fields`, `password_history`) are opaque, already-encoded fragments: the
/// import carries them into the stored payload verbatim, and never reads
/// them. `folder_id` is the one field the relationship resolver may assign
/// before the record is materialized.
pub struct CipherEntry {
    pub owner_claim: String,
    pub cipher_type: u32,
    pub name: String,
    pub notes: Option<String>,
    pub login: Option<String>,
    pub card: Option<String>,
    pub identity: Option<String>,
    pub secure_note: Option<String>,
    pub fields: Option<String>,
    pub password_history: Option<String>,
    pub reprompt: u32,
    pub favorite: bool,
    pub organization_id: Option<String>,
    pub folder_id: Option<String>,
}

/// Spec-level image of a cipher entry.
pub ghost struct CipherEntryView {
    pub owner_claim: Seq<char>,
    pub cipher_type: u32,
    pub name: Seq<char>,
    pub notes: Option<Seq<char>>,
    pub login: Option<Seq<char>>,
    pub card: Option<Seq<char>>,
    pub identity: Option<Seq<char>>,
    pub secure_note: Option<Seq<char>>,
    pub fields: Option<Seq<char>>,
    pub password_history: Option<Seq<char>>,
    pub reprompt: u32,
    pub favorite: bool,
    pub organization_id: Option<Seq<char>>,
    pub folder_id: Option<Seq<char>>,
}

impl View for CipherEntry {
    type V = CipherEntryView;

    open spec fn view(&self) -> CipherEntryView {
        CipherEntryView {
            owner_claim: self.owner_claim@,
            cipher_type: self.cipher_type,
            name: self.name@,
            notes: self.notes.deep_view(),
            login: self.login.deep_view(),
            card: self.card.deep_view(),
            identity: self.identity.deep_view(),
            secure_note: self.secure_note.deep_view(),
            fields: self.fields.deep_view(),
            password_history: self.password_history.deep_view(),
            reprompt: self.reprompt,
            favorite: self.favorite,
            organization_id: self.organization_id.deep_view(),
            folder_id: self.folder_id.deep_view(),
        }
    }
}

impl DeepView for CipherEntry {
    type V = CipherEntryView;

    open spec fn deep_view(&self) -> CipherEntryView {
        self.view()
    }
}

/// One relationship pair: positions into the bundle's `ciphers` and
/// `folders` sequences.
pub struct Relationship {
    pub cipher_index: usize,
    pub folder_index: usize,
}

/// Spec-level image of a relationship pair.
pub ghost struct RelationshipView {
    pub cipher_index: int,
    pub folder_index: int,
}

impl View for Relationship {
    type V = RelationshipView;

    open spec fn view(&self) -> RelationshipView {
        RelationshipView {
            cipher_index: self.cipher_index as int,
            folder_index: self.folder_index as int,
        }
    }
}

impl DeepView for Relationship {
    type V = RelationshipView;

    open spec fn deep_view(&self) -> RelationshipView {
        self.view()
    }
}

/// The full client-submitted import payload for one request.
pub struct ImportBundle {
    pub folders: Vec<FolderEntry>,
    pub ciphers: Vec<CipherEntry>,
    pub relationships: Vec<Relationship>,
}

} // verus!
