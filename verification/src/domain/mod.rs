//! Transport- and storage-independent types of the monitor.
pub mod api_token;
pub mod filters;
pub mod host;
pub mod icmp;
pub mod usage;
