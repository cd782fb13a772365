//! Application logic between the API and storage: filter parsing.
pub mod filters;
pub mod query;
