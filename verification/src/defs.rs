//! Fixed names and default values.

use vstd::prelude::*;

verus! {

/// Enclave image that is launched when the configuration names none.
pub const DEFAULT_EIF_PATH: &'static str = "/usr/share/nitro_enclaves/p11ne/p11ne.eif";

/// Name under which the token middleware knows the enclave's module.
pub const P11_MODULE_NAME: &'static str = "p11ne";

/// The host's service manager.
pub const SERVICE_MANAGER: &'static str = "systemctl";

/// What the service manager is asked to do with the proxy.
pub const SERVICE_RESTART: &'static str = "restart";

/// Service unit of the proxy that carries the middleware's traffic to the
/// enclave.
pub const PROXY_SERVICE: &'static str = "nitro-enclaves-vsock-proxy";

/// Port of the enclave's RPC endpoint when the configuration names none.
pub const DEFAULT_RPC_PORT: u32 = 10000;

/// Port that the token middleware bridges to when the configuration names none.
pub const DEFAULT_P11KIT_PORT: u32 = 9999;

/// How long to wait for the enclave to boot, in milliseconds, when the
/// configuration does not say.
pub const DEFAULT_ENCLAVE_BOOT_TIMEOUT_MS: u64 = 5000;

/// Attempts granted to a retried operation when the configuration does not say.
pub const DEFAULT_ATTESTATION_RETRY_COUNT: usize = 5;

} // verus!
