//! One call to the enclave's token service.
//!
//! A call is one exchange: a fresh connection is opened to the enclave's RPC
//! endpoint, one request is sent, one response is read, and the connection is
//! closed. Nothing is kept from one call to the next.

use vstd::prelude::*;
use crate::error::Error;
use crate::retry::RetryRpc;
use crate::schema::{ApiRequest, ApiResponse, RpcResult};

verus! {

/// A call to make: where to connect, and what to send.
#[derive(Debug, Clone, PartialEq, Eq)]
pub struct RpcCall<T, K> {
    /// Channel identifier of the enclave.
    pub cid: u32,
    /// Port of the enclave's RPC endpoint.
    pub port: u32,
    /// The request.
    pub request: ApiRequest<T, K>,
}

/// A call to make again while the enclave rejects it, as far as `retry`
/// allows.
#[derive(Debug, Clone, PartialEq, Eq)]
pub struct RetriedCall<T, K> {
    /// The call. Every attempt makes this same call.
    pub call: RpcCall<T, K>,
    /// The state of the call before its first attempt.
    pub retry: RetryRpc,
}

/// How far an exchange got.
#[derive(Debug, PartialEq, Eq)]
pub enum Exchange<A, R> {
    /// No connection could be opened.
    ConnectFailed(String),
    /// The request could not be sent.
    SendFailed(String),
    /// No response could be read.
    ReceiveFailed(String),
    /// The enclave answered.
    Received(ApiResponse<A, R>),
}

/// What a call comes to whose exchange got as far as `exchange`.
pub open spec fn rpc_result<A, R>(exchange: Exchange<A, R>) -> RpcResult<A, R> {
    match exchange {
        Exchange::ConnectFailed(cause) => Err(Error::RpcConnectError(cause)),
        Exchange::SendFailed(cause) => Err(Error::RpcTransportError(cause)),
        Exchange::ReceiveFailed(cause) => Err(Error::RpcTransportError(cause)),
        Exchange::Received(response) => Ok(response),
    }
}

impl<A, R> Exchange<A, R> {
    /// What the call comes to.
    ///
    /// An answer is passed on as it is, whether it accepts or rejects the
    /// request. A connection that could not be opened is a connect error; a
    /// connection that failed later is a transport error.
    pub fn into_result(self) -> (result: RpcResult<A, R>)
        ensures
            result == rpc_result(self),
    {
        match self {
            Exchange::ConnectFailed(cause) => Err(Error::RpcConnectError(cause)),
            Exchange::SendFailed(cause) => Err(Error::RpcTransportError(cause)),
            Exchange::ReceiveFailed(cause) => Err(Error::RpcTransportError(cause)),
            Exchange::Received(response) => Ok(response),
        }
    }
}

} // verus!
