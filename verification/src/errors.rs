//! The error taxonomy: a closed classification of everything that can go
//! wrong for a single provider call. Exactly one kind is active per error
//! value; callers pattern-match on the variants instead of parsing strings.

use vstd::prelude::*;

verus! {

/// Host-level rejection code reported when a call to another canister fails,
/// mirrored here as plain data so that contracts can inspect it.
#[derive(Clone, Copy, Debug, PartialEq, Eq, PartialOrd, Ord, Hash)]
pub enum RejectionCode {
    NoError,
    SysFatal,
    SysTransient,
    DestinationInvalid,
    CanisterReject,
    CanisterError,
    Unknown,
}

/// Failures attributed to the provider itself, before or instead of any
/// transport activity. `TooFewCycles` is the resource-shortfall signal the
/// resolver extracts: `expected` is the provider's total requirement for the
/// call, `received` what was actually attached.
#[derive(Clone, Debug, PartialEq, Eq)]
pub enum ProviderError {
    NoPermission,
    TooFewCycles { expected: u128, received: u128 },
    ProviderNotFound,
    MissingRequiredProvider,
}

/// Transport-level failures: either the call failed at the host boundary, or
/// an HTTP response arrived but could not be read as a JSON-RPC payload.
#[derive(Clone, Debug, PartialEq, Eq, PartialOrd, Ord)]
pub enum HttpOutcallError {
    IcError { code: RejectionCode, message: String },
    InvalidHttpJsonRpcResponse { status: u16, body: String, parsing_error: Option<String> },
}

/// A well-formed JSON-RPC error envelope returned by the remote endpoint.
#[derive(Clone, Debug, PartialEq, Eq, PartialOrd, Ord)]
pub struct JsonRpcError {
    pub code: i64,
    pub message: String,
}

/// Rejections raised before any call is made: the request itself is invalid.
#[derive(Clone, Debug, PartialEq, Eq, PartialOrd, Ord)]
pub enum ValidationError {
    Custom(String),
    InvalidHex(String),
    UrlParseError(String),
    HostNotAllowed(String),
    CredentialPathNotAllowed,
    CredentialHeaderNotAllowed,
}

/// The top of the taxonomy: the four disjoint kinds of failure a single
/// provider call can report.
#[derive(Clone, Debug, PartialEq, Eq)]
pub enum RpcError {
    ProviderError(ProviderError),
    HttpOutcallError(HttpOutcallError),
    JsonRpcError(JsonRpcError),
    ValidationError(ValidationError),
}

impl RpcError {
    /// Wraps a host-level rejection so that every failure path funnels
    /// through the one typed surface.
    pub fn from_rejection(code: RejectionCode, message: String) -> (err: Self)
        ensures
            err == RpcError::HttpOutcallError(HttpOutcallError::IcError { code, message }),
    {
        RpcError::HttpOutcallError(HttpOutcallError::IcError { code, message })
    }
}

} // verus!
