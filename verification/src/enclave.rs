//! The handle of a running enclave.

use vstd::prelude::*;
use crate::boot::BootMonitor;
use crate::bootstrap::Launch;
use crate::config::Enclave;
use crate::ne::EnclaveRunInfo;
use crate::retry::RetryRpc;
use crate::rpc::{RetriedCall, RpcCall};
use crate::schema::ApiRequest;
use crate::teardown::Terminate;

verus! {

/// What a handle stands for: the enclave's addresses and the limits that its
/// operations keep.
pub struct EnclaveView {
    /// Channel identifier of the enclave.
    pub cid: nat,
    /// Identifier of the enclave's process on the host.
    pub pid: int,
    /// How long to wait for the enclave to boot, in milliseconds.
    pub boot_timeout_ms: nat,
    /// Port of the enclave's RPC endpoint.
    pub rpc_port: nat,
    /// Attempts granted to a retried operation.
    pub attestation_retry_count: nat,
}

/// A running enclave whose bridge is in place.
///
/// The handle owns the enclave's process and the bridge configuration file.
/// Nothing in it changes once it exists.
#[derive(Debug)]
pub struct P11neEnclave {
    cid: u32,
    pid: i32,
    boot_timeout_ms: u64,
    rpc_port: u32,
    attestation_retry_count: usize,
}

impl View for P11neEnclave {
    type V = EnclaveView;

    closed spec fn view(&self) -> EnclaveView {
        EnclaveView {
            cid: self.cid as nat,
            pid: self.pid as int,
            boot_timeout_ms: self.boot_timeout_ms as nat,
            rpc_port: self.rpc_port as nat,
            attestation_retry_count: self.attestation_retry_count as nat,
        }
    }
}

/// What the handle of the enclave `info`, brought up with `config`, stands
/// for: the identifiers are the launcher's, the limits are the settings in
/// effect.
pub open spec fn enclave_view(config: Enclave, info: EnclaveRunInfo) -> EnclaveView {
    EnclaveView {
        cid: info.enclave_cid as nat,
        pid: info.process_id as int,
        boot_timeout_ms: config.spec_boot_timeout_ms() as nat,
        rpc_port: config.spec_rpc_port() as nat,
        attestation_retry_count: config.spec_attestation_retry_count() as nat,
    }
}

impl P11neEnclave {
    /// Begins to bring up an enclave with the given settings.
    ///
    /// The handle itself comes out of the last stage, once the enclave is
    /// launched, the bridge file written and the proxy restarted.
    pub fn new(enclave_config: Enclave) -> (launch: Launch)
        ensures
            launch.config() == enclave_config,
    {
        Launch::new(enclave_config)
    }

    /// Makes the handle of an enclave that is launched and bridged.
    pub(crate) fn assemble(config: &Enclave, info: &EnclaveRunInfo) -> (enclave: Self)
        ensures
            enclave@ == enclave_view(*config, *info),
    {
        P11neEnclave {
            cid: info.enclave_cid,
            pid: info.process_id,
            boot_timeout_ms: config.resolved_boot_timeout_ms(),
            rpc_port: config.resolved_rpc_port(),
            attestation_retry_count: config.resolved_attestation_retry_count(),
        }
    }

    /// The wait for this enclave to boot, with the time that the handle
    /// allows for it.
    pub fn wait_boot(&self) -> (monitor: BootMonitor)
        ensures
            monitor.timeout_ms == self@.boot_timeout_ms,
    {
        BootMonitor { timeout_ms: self.boot_timeout_ms }
    }

    /// The call that polls this enclave while it boots: it asks the service
    /// at the enclave's RPC endpoint to describe itself, and nothing else.
    pub fn boot_poll<T, K>(&self) -> (call: RpcCall<T, K>)
        ensures
            self.calls(call, ApiRequest::<T, K>::DescribeDevice),
    {
        self.rpc(self.wait_boot().request())
    }

    /// The identifier of the enclave's process on the host.
    pub fn pid(&self) -> (pid: i32)
        ensures
            pid == self@.pid,
    {
        self.pid
    }

    /// Registers a token. Retried while the enclave rejects it.
    pub fn add_token<T, K>(&self, token: T) -> (op: RetriedCall<T, K>)
        ensures
            self.retries(op, ApiRequest::AddToken { token }),
    {
        self.retry_rpc(ApiRequest::AddToken { token })
    }

    /// Renews the envelope key of a token. Retried while the enclave rejects
    /// it.
    pub fn refresh_token<T, K>(&self, label: String, pin: String, envelope_key: K) -> (op:
        RetriedCall<T, K>)
        ensures
            self.retries(op, ApiRequest::RefreshToken { label, pin, envelope_key }),
    {
        self.retry_rpc(ApiRequest::RefreshToken { label, pin, envelope_key })
    }

    /// Removes a token. Made once: a rejection is the answer.
    pub fn remove_token<T, K>(&self, label: String, pin: String) -> (op: RpcCall<T, K>)
        ensures
            self.calls(op, ApiRequest::RemoveToken { label, pin }),
    {
        self.rpc(ApiRequest::RemoveToken { label, pin })
    }

    /// Replaces a token. Retried while the enclave rejects it.
    pub fn update_token<T, K>(&self, label: String, pin: String, token: T) -> (op: RetriedCall<
        T,
        K,
    >)
        ensures
            self.retries(op, ApiRequest::UpdateToken { label, pin, token }),
    {
        self.retry_rpc(ApiRequest::UpdateToken { label, pin, token })
    }

    /// Asks for the description of a token. Made once: a rejection is the
    /// answer.
    pub fn describe_token<T, K>(&self, label: String, pin: String) -> (op: RpcCall<T, K>)
        ensures
            self.calls(op, ApiRequest::DescribeToken { label, pin }),
    {
        self.rpc(ApiRequest::DescribeToken { label, pin })
    }

    /// Whether `call` sends `request` to this enclave's RPC endpoint.
    pub open spec fn calls<T, K>(&self, call: RpcCall<T, K>, request: ApiRequest<T, K>) -> bool {
        &&& call.cid == self@.cid
        &&& call.port == self@.rpc_port
        &&& call.request == request
    }

    /// Whether `op` sends `request` to this enclave's RPC endpoint, has made
    /// no attempt yet, and is granted as many attempts as the handle allows.
    pub open spec fn retries<T, K>(&self, op: RetriedCall<T, K>, request: ApiRequest<T, K>) -> bool {
        &&& self.calls(op.call, request)
        &&& op.retry.wf()
        &&& op.retry.spec_attempt() == 1
        &&& op.retry.spec_max_attempts() == self@.attestation_retry_count
    }

    /// A call with `request` that is retried while the enclave rejects it.
    pub fn retry_rpc<T, K>(&self, request: ApiRequest<T, K>) -> (op: RetriedCall<T, K>)
        ensures
            self.retries(op, request),
    {
        RetriedCall { call: self.rpc(request), retry: RetryRpc::new(self.attestation_retry_count) }
    }

    /// A single call with `request`.
    pub fn rpc<T, K>(&self, request: ApiRequest<T, K>) -> (call: RpcCall<T, K>)
        ensures
            self.calls(call, request),
    {
        RpcCall { cid: self.cid, port: self.rpc_port, request }
    }

    /// Begins to release the enclave: its process first, then the bridge file.
    pub fn teardown(&self) -> (stage: Terminate)
        ensures
            stage.spec_pid() == self@.pid,
    {
        Terminate::new(self.pid)
    }
}

} // verus!
