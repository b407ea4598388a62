//! Host-side lifecycle manager for an enclave that hosts a PKCS#11 token
//! service.
//!
//! The library decides; it performs no I/O. Launching the enclave, writing
//! files, talking over the isolated channel, sleeping and signalling are done
//! by the caller, who reports what came back and is told what to do next.

pub mod boot;
pub mod bootstrap;
pub mod bridge;
pub mod config;
pub mod defs;
pub mod enclave;
pub mod error;
pub mod ne;
pub mod retry;
pub mod rpc;
pub mod schema;
pub mod teardown;
