//! Verified core of a small network monitor: configuration validation,
//! filter parsing, ICMP status tracking, usage bookkeeping and the pure
//! decisions behind the HTTP API.

pub mod api;
pub mod app;
pub mod backends;
pub mod config;
pub mod domain;
pub mod manager;
pub mod modules;
pub mod names;
pub mod sorted;
pub mod storage;
pub mod text;
