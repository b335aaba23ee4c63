//! A minimal abstraction layer over HTTP client implementations: a trait for
//! "something that can execute an HTTP request and yield a response", a mock
//! client that replays pre-programmed responses in FIFO order while logging
//! every request it receives, and thin wrappers around one concrete HTTP
//! client library so that async code outside this crate can drive it.

use vstd::prelude::*;

mod request;
mod response;
pub mod mock;
pub mod reqwest_client;

pub use request::HttpRequest;
pub use request::HttpRequestView;
pub use response::HttpError;
pub use response::HttpResponse;
pub use response::Response;

verus! {

/// Something that can execute an HTTP request and yield a response.
///
/// Calling code depends on this trait rather than on a concrete client, so a
/// real client and the mock client can be substituted for one another without
/// changing call sites.
pub trait HttpClient {
    /// The response implementation the client produces.
    type Response: HttpResponse;

    /// Sends the request and yields either a response or an error.
    fn execute(&self, request: HttpRequest) -> Result<Response<Self::Response>, HttpError>;
}

} // verus!
