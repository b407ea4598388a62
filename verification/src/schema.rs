//! Requests to the enclave's token service, and its answers.
//!
//! What a token or an envelope key is made of, and what a response holds, is
//! the protocol's business: here they are parameters. The library reads one
//! thing of a response, whether the service accepted the request.

use vstd::prelude::*;
use crate::error::Error;

verus! {

/// A request to the token service. `T` describes a token, `K` an envelope key.
#[derive(Debug, Clone, PartialEq, Eq)]
pub enum ApiRequest<T, K> {
    /// Ask the service to describe itself.
    DescribeDevice,
    /// Register a token.
    AddToken { token: T },
    /// Renew the envelope key of a token.
    RefreshToken { label: String, pin: String, envelope_key: K },
    /// Remove a token.
    RemoveToken { label: String, pin: String },
    /// Replace a token.
    UpdateToken { label: String, pin: String, token: T },
    /// Ask the service to describe a token.
    DescribeToken { label: String, pin: String },
}

/// An answer of the token service: `Ok` if it accepted the request, `Err`
/// if it rejected it.
pub type ApiResponse<A, R> = Result<A, R>;

/// What one call comes to: the service's answer, or the failure of the
/// channel before an answer was read.
pub type RpcResult<A, R> = Result<ApiResponse<A, R>, Error>;

/// Whether a call got an answer that rejects the request.
pub open spec fn is_rejection<A, R>(outcome: RpcResult<A, R>) -> bool {
    outcome matches Ok(Err(_))
}

} // verus!
