//! Errors of the query services between the API and storage.
use crate::storage::{storage_error_text, StorageError};
use crate::text::{concat2, concat3, debug_quoted, quote};
use vstd::prelude::*;

verus! {

/// Why a query failed.
#[derive(Debug)]
pub enum AppError {
    NotFound(String),
    Storage(StorageError),
}

impl AppError {
    /// The error as the program reports it.
    pub fn message(&self) -> (r: String)
        ensures
            match self {
                AppError::NotFound(id) => r@ == "host "@ + debug_quoted(id@) + " not found"@,
                AppError::Storage(e) => r@ == "storage error: "@ + storage_error_text(*e),
            },
    {
        match self {
            AppError::NotFound(id) => {
                let q = quote(id.as_str());
                concat3("host ", q.as_str(), " not found")
            },
            AppError::Storage(e) => {
                let inner = e.message();
                concat2("storage error: ", inner.as_str())
            },
        }
    }
}

} // verus!
