//! The settings an enclave is brought up with.

use vstd::prelude::*;
use vstd::string::*;
use crate::defs::{
    DEFAULT_ATTESTATION_RETRY_COUNT, DEFAULT_EIF_PATH, DEFAULT_ENCLAVE_BOOT_TIMEOUT_MS,
    DEFAULT_P11KIT_PORT, DEFAULT_RPC_PORT,
};

verus! {

/// Settings for one enclave. Every optional setting has a fixed default.
#[derive(Debug, Clone, PartialEq, Eq)]
pub struct Enclave {
    /// Number of CPUs to give the enclave.
    pub cpu_count: usize,
    /// Memory to give the enclave, in MiB.
    pub memory_mib: usize,
    /// Path of the enclave image.
    pub image_path: Option<String>,
    /// Port that the token middleware bridges to.
    pub p11kit_port: Option<u32>,
    /// Port of the enclave's RPC endpoint.
    pub rpc_port: Option<u32>,
    /// How long to wait for the enclave to boot, in milliseconds.
    pub boot_timeout_ms: Option<u64>,
    /// Attempts granted to a retried operation.
    pub attestation_retry_count: Option<usize>,
}

impl Enclave {
    /// The image path in effect.
    pub open spec fn spec_image_path(&self) -> Seq<char> {
        match self.image_path {
            Some(path) => path@,
            None => DEFAULT_EIF_PATH@,
        }
    }

    /// The bridge port in effect.
    pub open spec fn spec_p11kit_port(&self) -> u32 {
        match self.p11kit_port {
            Some(port) => port,
            None => DEFAULT_P11KIT_PORT,
        }
    }

    /// The RPC port in effect.
    pub open spec fn spec_rpc_port(&self) -> u32 {
        match self.rpc_port {
            Some(port) => port,
            None => DEFAULT_RPC_PORT,
        }
    }

    /// The boot timeout in effect, in milliseconds.
    pub open spec fn spec_boot_timeout_ms(&self) -> u64 {
        match self.boot_timeout_ms {
            Some(millis) => millis,
            None => DEFAULT_ENCLAVE_BOOT_TIMEOUT_MS,
        }
    }

    /// The number of attempts in effect.
    pub open spec fn spec_attestation_retry_count(&self) -> usize {
        match self.attestation_retry_count {
            Some(count) => count,
            None => DEFAULT_ATTESTATION_RETRY_COUNT,
        }
    }

    /// The image path in effect.
    pub fn resolved_image_path(&self) -> (path: String)
        ensures
            path@ == self.spec_image_path(),
    {
        match &self.image_path {
            Some(path) => path.clone(),
            None => String::from_str(DEFAULT_EIF_PATH),
        }
    }

    /// The bridge port in effect.
    #[verifier::when_used_as_spec(spec_p11kit_port)]
    pub fn resolved_p11kit_port(&self) -> (port: u32)
        ensures
            port == self.spec_p11kit_port(),
    {
        match self.p11kit_port {
            Some(port) => port,
            None => DEFAULT_P11KIT_PORT,
        }
    }

    /// The RPC port in effect.
    #[verifier::when_used_as_spec(spec_rpc_port)]
    pub fn resolved_rpc_port(&self) -> (port: u32)
        ensures
            port == self.spec_rpc_port(),
    {
        match self.rpc_port {
            Some(port) => port,
            None => DEFAULT_RPC_PORT,
        }
    }

    /// The boot timeout in effect, in milliseconds.
    #[verifier::when_used_as_spec(spec_boot_timeout_ms)]
    pub fn resolved_boot_timeout_ms(&self) -> (millis: u64)
        ensures
            millis == self.spec_boot_timeout_ms(),
    {
        match self.boot_timeout_ms {
            Some(millis) => millis,
            None => DEFAULT_ENCLAVE_BOOT_TIMEOUT_MS,
        }
    }

    /// The number of attempts in effect.
    #[verifier::when_used_as_spec(spec_attestation_retry_count)]
    pub fn resolved_attestation_retry_count(&self) -> (count: usize)
        ensures
            count == self.spec_attestation_retry_count(),
    {
        match self.attestation_retry_count {
            Some(count) => count,
            None => DEFAULT_ATTESTATION_RETRY_COUNT,
        }
    }
}

} // verus!
