//! How the API answers a failed request.
use crate::app::filters::{filter_error_message, FilterParseError};
use crate::storage::{storage_error_text, StorageError};
use crate::text::{concat2, owned};
use vstd::prelude::*;

verus! {

/// Why a request failed.
#[derive(Debug)]
pub enum ApiError {
    Unauthorized,
    BadRequest(String),
    NotFound(String),
    Internal(String),
    Storage(StorageError),
}

/// The HTTP status each error answers with.
pub open spec fn api_status(e: ApiError) -> u16 {
    match e {
        ApiError::Unauthorized => 401,
        ApiError::BadRequest(_) => 400,
        ApiError::NotFound(_) => 404,
        ApiError::Storage(StorageError::NotFound(_)) => 404,
        ApiError::Internal(_) => 500,
        ApiError::Storage(_) => 500,
    }
}

impl ApiError {
    /// The HTTP status of the answer.
    pub fn status_code(&self) -> (r: u16)
        ensures
            r == api_status(*self),
    {
        match self {
            ApiError::Unauthorized => 401,
            ApiError::BadRequest(_) => 400,
            ApiError::NotFound(_) => 404,
            ApiError::Storage(StorageError::NotFound(_)) => 404,
            ApiError::Internal(_) => 500,
            ApiError::Storage(_) => 500,
        }
    }

    /// The error text of the answer's body.
    pub fn message(&self) -> (r: String)
        ensures
            match self {
                ApiError::Unauthorized => r@ == "unauthorized"@,
                ApiError::BadRequest(v) => r@ == "bad request: "@ + v@,
                ApiError::NotFound(v) => r@ == v@ + " not found"@,
                ApiError::Internal(v) => r@ == "internal error: "@ + v@,
                ApiError::Storage(e) => r@ == storage_error_text(*e),
            },
    {
        match self {
            ApiError::Unauthorized => owned("unauthorized"),
            ApiError::BadRequest(v) => concat2("bad request: ", v.as_str()),
            ApiError::NotFound(v) => concat2(v.as_str(), " not found"),
            ApiError::Internal(v) => concat2("internal error: ", v.as_str()),
            ApiError::Storage(e) => e.message(),
        }
    }

    /// A storage failure as an API error.
    pub fn from_storage(e: StorageError) -> (r: ApiError)
        ensures
            r == ApiError::Storage(e),
    {
        ApiError::Storage(e)
    }

    /// A refused filter answers as a bad request with the filter's message.
    pub fn from_filter_error(e: &FilterParseError) -> (r: ApiError)
        ensures
            r matches ApiError::BadRequest(m) && m@ == filter_error_message(e@),
    {
        ApiError::BadRequest(e.message())
    }
}

} // verus!
