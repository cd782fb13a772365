//! How probes and usage collections are carried out: the requests, the
//! command lines and the reading of what comes back.
pub mod ping;
pub mod usage;
