//! The HTTP API's decisions: who may call it, what a query string holds,
//! how errors answer, and the module catalog it serves.
pub mod auth;
pub mod dto;
pub mod errors;
pub mod routes;
