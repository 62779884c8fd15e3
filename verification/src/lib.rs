//! Import reconciliation for a personal vault: turning a client-submitted
//! bundle of folders and encrypted records ("ciphers") into durable storage
//! rows under the authenticated owner's identity.
//!
//! The server never decrypts: it validates ownership, assigns durable
//! identifiers, resolves in-bundle relationships, serializes the opaque
//! payloads, and prepares the two bulk writes. Folder identity is
//! client-chosen and import-idempotent; cipher identity is freshly minted
//! on every import — the laws in [`store`] pin both rules down.

pub mod batch;
pub mod bundle;
pub mod ciphers;
pub mod encode;
pub mod fault;
pub mod folders;
pub mod resolve;
pub mod rows;
pub mod store;
