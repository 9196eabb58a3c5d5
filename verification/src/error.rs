//! Error type for the library.
//!
//! Lookup failures are reported as explicit not-found values so a caller can
//! distinguish "this id has no record" from "this record exists but is
//! empty"; decode failures on a persisted snapshot surface as format errors
//! so a caller can fall back to rebuilding from the source document.

use vstd::prelude::*;
use vstd::string::StringExecFns;

verus! {

/// All the ways a library operation can fail.
#[derive(Debug, Clone)]
pub enum OewnError {
    /// A dereferenced synset id has no matching record.
    SynsetNotFound(String),
    /// A dereferenced entry id has no matching record.
    LexicalEntryNotFound(String),
    /// A dereferenced sense id has no matching record.
    SenseNotFound(String),
    /// A field could not be decoded.
    ParseError(String),
    /// A persisted snapshot is unreadable or carries an incompatible format
    /// version; the caller should discard it and rebuild from the source.
    FormatError(String),
    /// The query surface was invoked before any data was loaded.
    NotLoaded,
    /// An argument was rejected before any work was done.
    InvalidArgument(String),
    /// An internal consistency violation, such as an index pointing at a
    /// missing primary record.
    Internal(String),
    /// A relational-store operation failed.
    DbError(String),
}

impl OewnError {
    /// A human-readable description of the error.
    pub fn message(&self) -> String {
        match self {
            OewnError::SynsetNotFound(id) => "Synset not found: ".to_owned().concat(id.as_str()),
            OewnError::LexicalEntryNotFound(id) => "Lexical entry not found: ".to_owned().concat(
                id.as_str(),
            ),
            OewnError::SenseNotFound(id) => "Sense not found: ".to_owned().concat(id.as_str()),
            OewnError::ParseError(m) => "Failed to parse data: ".to_owned().concat(m.as_str()),
            OewnError::FormatError(m) => "Snapshot format error: ".to_owned().concat(m.as_str()),
            OewnError::NotLoaded => "WordNet data not loaded".to_owned(),
            OewnError::InvalidArgument(m) => "Invalid argument: ".to_owned().concat(m.as_str()),
            OewnError::Internal(m) => "Internal error: ".to_owned().concat(m.as_str()),
            OewnError::DbError(m) => "Database error: ".to_owned().concat(m.as_str()),
        }
    }
}

} // verus!
