//! Thin wrappers around the reqwest HTTP client's native types, so that async
//! code outside this crate can drive a real client while calling code holds
//! only this crate's types. Executing a request over the network, and reading
//! a network-backed body, are async I/O and live outside this crate.

use vstd::prelude::*;

verus! {

#[verifier::external_type_specification]
#[verifier::external_body]
pub struct ExReqwestClient(reqwest::Client);

#[verifier::external_type_specification]
#[verifier::external_body]
pub struct ExReqwestRequest(reqwest::Request);

#[verifier::external_type_specification]
#[verifier::external_body]
pub struct ExReqwestError(reqwest::Error);

#[verifier::external_type_specification]
#[verifier::external_body]
#[verifier::reject_recursive_types(T)]
pub struct ExHttpRequest<T>(http::Request<T>);

/// Owns a reqwest client on behalf of calling code.
pub struct ReqwestClientWrapper {
    pub inner: reqwest::Client,
}

impl ReqwestClientWrapper {
    /// Wraps the given client.
    pub fn new(client: reqwest::Client) -> (r: ReqwestClientWrapper)
        ensures
            r.inner == client,
    {
        ReqwestClientWrapper { inner: client }
    }
}

/// Relies on reqwest's `TryFrom<http::Request<T>>` for `reqwest::Request`
/// (reqwest 0.13): builds the native request from the given request's method,
/// URI, headers and body, and fails exactly where the URI does not parse as a
/// URL.
#[verifier::external_body]
pub fn convert_request(request: http::Request<Vec<u8>>) -> (r: Result<
    reqwest::Request,
    reqwest::Error,
>) {
    request.try_into()
}

} // verus!
