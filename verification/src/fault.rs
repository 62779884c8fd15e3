//! The import's failure taxonomy.
//!
//! A caller must be able to tell a client fault (a cipher declared for the
//! wrong owner) from the internal faults (a payload that would not encode,
//! a failed bulk write). Every fault is terminal for the current import
//! call: nothing is retried at this layer.

use vstd::prelude::*;
use vstd::string::StringExecFns;

verus! {

/// One import-ending fault.
#[derive(Clone, Copy, PartialEq, Eq, Structural, Debug)]
pub enum ImportFault {
    /// A cipher's declared owner differs from the authenticated caller:
    /// the client's fault, surfaced with a descriptive reason.
    Ownership,
    /// A payload could not be serialized: an internal fault, surfaced
    /// opaquely.
    Serialization,
    /// A bulk write failed: an internal fault, surfaced opaquely.
    Storage,
}

impl ImportFault {
    /// Whether the fault is the caller's (a rejected request) rather than
    /// an internal one.
    pub fn is_client_fault(&self) -> (r: bool)
        ensures
            r <==> *self == ImportFault::Ownership,
    {
        match self {
            ImportFault::Ownership => true,
            ImportFault::Serialization => false,
            ImportFault::Storage => false,
        }
    }

    /// The reason surfaced to the caller: descriptive for the client
    /// fault, opaque for the internal ones.
    pub fn message(&self) -> (m: String)
        ensures
            *self == ImportFault::Ownership ==> m@ == "Cipher encrypted for wrong user"@,
            *self == ImportFault::Serialization ==> m@ == "internal error"@,
            *self == ImportFault::Storage ==> m@ == "database error"@,
    {
        match self {
            ImportFault::Ownership => String::from_str("Cipher encrypted for wrong user"),
            ImportFault::Serialization => String::from_str("internal error"),
            ImportFault::Storage => String::from_str("database error"),
        }
    }
}

} // verus!
