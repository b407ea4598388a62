//! What can go wrong while an enclave is brought up or spoken to.

use vstd::prelude::*;

verus! {

/// A failure that ends the operation which met it.
///
/// Each variant names the phase that failed. The text it carries, where it
/// carries one, is the report of whoever performed that phase, passed on
/// unchanged.
#[derive(Debug, Clone, PartialEq, Eq)]
pub enum Error {
    /// The launcher could not start the enclave.
    NitroCliError(String),
    /// The launcher started an enclave and reported identifiers that are
    /// none: the channel identifier or the process identifier does not fit
    /// the width of its kind. The enclave runs, and there is no handle for
    /// it.
    EnclaveIdError { enclave_cid: u64, process_id: u64 },
    /// The bridge configuration file could not be written.
    P11KitSetupError(String),
    /// No connection to the enclave's RPC endpoint could be opened.
    RpcConnectError(String),
    /// The connection failed while a request was sent or a response read.
    RpcTransportError(String),
    /// The service manager could not be run.
    SystemdExecError(String),
    /// The service manager ran and reported failure; its exit code, if it
    /// had one.
    VsockProxyError(Option<i32>),
}

} // verus!
