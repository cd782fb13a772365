//! What the storage layer decides: which hosts a filter keeps, the usage
//! summary, the order of listings, when a usage update is recorded as
//! history, and how stored rows are read back.
pub mod cache;
pub mod filtering;
pub mod records;

use crate::text::{concat2, concat3, debug_quoted, quote};
use vstd::prelude::*;

verus! {

/// Why a storage operation failed.
#[derive(Debug)]
pub enum StorageError {
    NotFound(String),
    Sqlite(String),
    Json(String),
    InvalidData(String),
    TaskJoin(String),
    LockPoisoned,
}

/// The text a storage error is reported with.
pub open spec fn storage_error_text(e: StorageError) -> Seq<char> {
    match e {
        StorageError::NotFound(id) => "host "@ + debug_quoted(id@) + " not found"@,
        StorageError::Sqlite(m) => "sqlite error: "@ + m@,
        StorageError::Json(m) => "json error: "@ + m@,
        StorageError::InvalidData(m) => "invalid data in storage: "@ + m@,
        StorageError::TaskJoin(m) => "storage task failed: "@ + m@,
        StorageError::LockPoisoned => "storage lock poisoned"@,
    }
}

impl StorageError {
    /// The error as the program reports it.
    pub fn message(&self) -> (r: String)
        ensures
            r@ == storage_error_text(*self),
    {
        match self {
            StorageError::NotFound(id) => {
                let q = quote(id.as_str());
                concat3("host ", q.as_str(), " not found")
            },
            StorageError::Sqlite(m) => concat2("sqlite error: ", m.as_str()),
            StorageError::Json(m) => concat2("json error: ", m.as_str()),
            StorageError::InvalidData(m) => concat2("invalid data in storage: ", m.as_str()),
            StorageError::TaskJoin(m) => concat2("storage task failed: ", m.as_str()),
            StorageError::LockPoisoned => "storage lock poisoned".to_owned(),
        }
    }
}

} // verus!
