//! The uniform response surface: status, resolved URL, and a body that is
//! either buffered (one byte sequence) or streamed (a finite list of chunks).

use vstd::prelude::*;

verus! {

/// The single error value this library hands its callers: a textual message.
/// The mock client returns its configured message verbatim in this value.
#[derive(Debug)]
pub struct HttpError {
    pub message: String,
}

impl HttpError {
    /// Wraps a message.
    pub fn new(message: String) -> (r: Self)
        ensures
            r.message@ == message@,
    {
        HttpError { message }
    }

    /// The error's message text.
    pub fn message(&self) -> (m: &String)
        ensures
            m@ == self.message@,
    {
        &self.message
    }
}

/// The bytes a chunk list delivers: every chunk, in order, concatenated.
pub open spec fn chunks_view(chunks: Seq<Vec<u8>>) -> Seq<u8> {
    chunks.map_values(|c: Vec<u8>| c@).flatten()
}

/// A response implementation: something with a status code, a resolved URL,
/// and a body that can be read whole or as a stream of chunks.
pub trait HttpResponse: Sized {
    /// The status code the response carries.
    spec fn status_view(&self) -> u16;

    /// The resolved URL, where resolution has occurred.
    spec fn url_view(&self) -> Option<Seq<char>>;

    /// The full body as a byte sequence.
    spec fn body_view(&self) -> Seq<u8>;

    /// Whether the body is already buffered in memory, so that reading it
    /// cannot fail. A transport-backed implementation may return false.
    spec fn buffered(&self) -> bool;

    /// The stored status code.
    fn status(&self) -> (s: u16)
        ensures
            s == self.status_view(),
    ;

    /// The resolved URL. Must not be called before resolution occurred.
    fn url(&self) -> (u: &String)
        requires
            self.url_view() is Some,
        ensures
            u@ == self.url_view().unwrap(),
    ;

    /// Consumes the response and yields its full body.
    fn bytes(self) -> (b: Result<Vec<u8>, HttpError>)
        ensures
            b matches Ok(v) ==> v@ == self.body_view(),
            self.buffered() ==> b is Ok,
    ;

    /// Consumes the response and yields its body as a finite list of chunks,
    /// which concatenate to the full body.
    fn bytes_stream(self) -> (chunks: Vec<Vec<u8>>)
        ensures
            chunks_view(chunks@) == self.body_view(),
    ;
}

/// A uniform surface over any response implementation: calling code reads
/// status, URL and body the same way whether the response came from the mock
/// client or from a real transport.
#[derive(Debug)]
pub struct Response<R> {
    pub inner: R,
}

impl<R: HttpResponse> Response<R> {
    /// Wraps a response implementation.
    pub fn new(inner: R) -> (r: Self)
        ensures
            r.inner == inner,
    {
        Response { inner }
    }

    /// The response's status code.
    pub fn status(&self) -> (s: u16)
        ensures
            s == self.inner.status_view(),
    {
        self.inner.status()
    }

    /// The response's resolved URL. Must not be called before resolution
    /// occurred.
    pub fn url(&self) -> (u: &String)
        requires
            self.inner.url_view() is Some,
        ensures
            u@ == self.inner.url_view().unwrap(),
    {
        self.inner.url()
    }

    /// Consumes the response and yields its full body. On a buffered response
    /// this cannot fail.
    pub fn bytes(self) -> (b: Result<Vec<u8>, HttpError>)
        ensures
            b matches Ok(v) ==> v@ == self.inner.body_view(),
            self.inner.buffered() ==> b is Ok,
    {
        self.inner.bytes()
    }

    /// Consumes the response and yields its body as a finite list of chunks.
    pub fn bytes_stream(self) -> (chunks: Vec<Vec<u8>>)
        ensures
            chunks_view(chunks@) == self.inner.body_view(),
    {
        self.inner.bytes_stream()
    }
}

} // verus!
