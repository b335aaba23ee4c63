//! The mock HTTP client: replays pre-programmed responses or errors in FIFO
//! order, logs every request it receives, and synthesizes a default response
//! when its queue is empty. Clones of a client handle share one underlying
//! state block, so an entry queued through one handle is consumed by an
//! `execute` call on another.

use vstd::prelude::*;

use std::collections::VecDeque;
use std::sync::Arc;

use vstd::rwlock::RwLock;
use vstd::rwlock::RwLockPredicate;

use crate::HttpClient;
use crate::request::HttpRequest;
use crate::response::HttpError;
use crate::response::HttpResponse;
use crate::response::Response;

verus! {

/// The result of `url::Url::parse` on a given string: `None` where parsing
/// fails, the normalized serialization of the parsed URL where it succeeds.
pub uninterp spec fn url_parse_result(s: Seq<char>) -> Option<Seq<char>>;

/// The fixed URL substituted where a request's own URI cannot be parsed, so
/// that URL resolution never fails.
pub open spec fn placeholder_url() -> Seq<char> {
    "http://mock.test/"@
}

/// The URL a response echoes for a request: the request's URI as the url
/// crate normalizes it, or the placeholder where the URI does not parse.
pub open spec fn request_url(uri: Seq<char>) -> Seq<char> {
    match url_parse_result(uri) {
        Some(u) => u,
        None => placeholder_url(),
    }
}

/// The view of an optional owned string.
pub open spec fn opt_string_view(o: Option<String>) -> Option<Seq<char>> {
    match o {
        Some(s) => Some(s@),
        None => None,
    }
}

/// Relies on `url::Url::parse` (url 2.5): whether a string parses, and the
/// parsed URL, depend on the input string alone; `String::from` on the parsed
/// URL returns its normalized serialization.
#[verifier::external_body]
fn parse_url(s: &str) -> (r: Option<String>)
    ensures
        r is Some <==> url_parse_result(s@) is Some,
        r matches Some(u) ==> Some(u@) == url_parse_result(s@),
{
    match url::Url::parse(s) {
        Ok(u) => Some(String::from(u)),
        Err(_) => None,
    }
}

/// The URL echoed for a request URI: the URI parsed and normalized, or the
/// placeholder where it does not parse.
fn resolve_request_url(uri: &str) -> (r: String)
    ensures
        r@ == request_url(uri@),
{
    match parse_url(uri) {
        Some(u) => u,
        None => "http://mock.test/".to_owned(),
    }
}

/// A pre-programmed response for use with `MockHttpClient`: a status code, a
/// byte body, and an optional explicit URL. Where no explicit URL is set, the
/// requesting call's URL is echoed at execution time.
#[derive(Debug)]
pub struct MockResponse {
    pub status: u16,
    pub body: Vec<u8>,
    pub url: Option<String>,
}

impl MockResponse {
    /// A response with the given status code, an empty body and no explicit
    /// URL.
    pub fn new(status: u16) -> (r: Self)
        ensures
            r.status == status,
            r.body@ == Seq::<u8>::empty(),
            r.url is None,
    {
        let r = MockResponse { status, body: Vec::new(), url: None };
        proof {
            assert(r.body@ =~= Seq::<u8>::empty());
        }
        r
    }

    /// Sets the response body.
    pub fn body(self, body: Vec<u8>) -> (r: Self)
        ensures
            r.status == self.status,
            r.body@ == body@,
            r.url == self.url,
    {
        MockResponse { body, ..self }
    }

    /// Sets the explicit response URL. The string is parsed and normalized by
    /// the url crate; a string that does not parse leaves no explicit URL, so
    /// the requesting call's URL will be echoed instead.
    pub fn url(self, url: &str) -> (r: Self)
        ensures
            r.status == self.status,
            r.body@ == self.body@,
            opt_string_view(r.url) == url_parse_result(url@),
    {
        MockResponse { url: parse_url(url), ..self }
    }
}

impl HttpResponse for MockResponse {
    open spec fn status_view(&self) -> u16 {
        self.status
    }

    open spec fn url_view(&self) -> Option<Seq<char>> {
        opt_string_view(self.url)
    }

    open spec fn body_view(&self) -> Seq<u8> {
        self.body@
    }

    open spec fn buffered(&self) -> bool {
        true
    }

    fn status(&self) -> (s: u16) {
        self.status
    }

    fn url(&self) -> (u: &String) {
        self.url.as_ref().unwrap()
    }

    fn bytes(self) -> (b: Result<Vec<u8>, HttpError>) {
        Ok(self.body)
    }

    fn bytes_stream(self) -> (chunks: Vec<Vec<u8>>) {
        let ghost body = self.body@;
        let mut chunks: Vec<Vec<u8>> = Vec::new();
        chunks.push(self.body);
        proof {
            let s = chunks@.map_values(|c: Vec<u8>| c@);
            assert(s =~= seq![body]);
            assert(s.drop_first() =~= Seq::<Seq<u8>>::empty());
            assert(s.flatten() == s.first() + s.drop_first().flatten());
            assert(s.flatten() =~= body);
        }
        chunks
    }
}

/// A queued entry: a pre-programmed response, or an error message to be
/// returned verbatim.
#[derive(Debug)]
pub enum MockResponseOrError {
    Response(MockResponse),
    Error(String),
}

/// What one `execute` call yields, seen abstractly: a status, body and
/// resolved URL on success, or a message on failure.
pub enum Outcome {
    Success { status: u16, body: Seq<u8>, url: Seq<char> },
    Failure { message: Seq<char> },
}

/// The outcome of consuming one queued entry against a request URI: a
/// response entry succeeds with its own status and body and with its explicit
/// URL, or with the request's URL where it has none; an error entry fails
/// with exactly its message.
pub open spec fn entry_outcome(entry: MockResponseOrError, uri: Seq<char>) -> Outcome {
    match entry {
        MockResponseOrError::Response(m) => Outcome::Success {
            status: m.status,
            body: m.body@,
            url: match m.url {
                Some(u) => u@,
                None => request_url(uri),
            },
        },
        MockResponseOrError::Error(msg) => Outcome::Failure { message: msg@ },
    }
}

/// The outcome synthesized where the queue is empty: success, status 200,
/// empty body, the request's URL.
pub open spec fn default_outcome(uri: Seq<char>) -> Outcome {
    Outcome::Success { status: 200, body: Seq::<u8>::empty(), url: request_url(uri) }
}

/// The outcome of one `execute` call against a queue: the front entry's
/// outcome, or the default outcome where the queue is empty.
pub open spec fn execute_outcome(queue: Seq<MockResponseOrError>, uri: Seq<char>) -> Outcome {
    if queue.len() == 0 {
        default_outcome(uri)
    } else {
        entry_outcome(queue[0], uri)
    }
}

/// The queue after one `execute` call: the front entry is consumed; an empty
/// queue stays empty.
pub open spec fn queue_after_execute(queue: Seq<MockResponseOrError>) -> Seq<MockResponseOrError> {
    if queue.len() == 0 {
        queue
    } else {
        queue.drop_first()
    }
}

/// Whether an `execute` result realizes an abstract outcome: a success as a
/// response whose URL is resolved, a failure as an error carrying the message.
pub open spec fn outcome_matches(
    r: Result<Response<MockResponse>, HttpError>,
    o: Outcome,
) -> bool {
    match r {
        Ok(resp) => o matches Outcome::Success { status, body, url }
            && resp.inner.status == status && resp.inner.body@ == body
            && opt_string_view(resp.inner.url) == Some(url),
        Err(e) => o matches Outcome::Failure { message } && e.message@ == message,
    }
}

/// The outcomes of a sequence of `execute` calls, one per request URI,
/// starting from the given queue: each call yields `execute_outcome` of the
/// queue it sees and leaves `queue_after_execute` of it for the next.
pub open spec fn run_outcomes(queue: Seq<MockResponseOrError>, uris: Seq<Seq<char>>) -> Seq<
    Outcome,
>
    decreases uris.len(),
{
    if uris.len() == 0 {
        Seq::<Outcome>::empty()
    } else {
        seq![execute_outcome(queue, uris.first())] + run_outcomes(
            queue_after_execute(queue),
            uris.drop_first(),
        )
    }
}

/// The queue left after a sequence of `execute` calls, one per call.
pub open spec fn queue_after_run(queue: Seq<MockResponseOrError>, n: nat) -> Seq<
    MockResponseOrError,
>
    decreases n,
{
    if n == 0 {
        queue
    } else {
        queue_after_run(queue_after_execute(queue), (n - 1) as nat)
    }
}

/// FIFO order law: for a queue of N entries followed by N `execute` calls,
/// the i-th call receives exactly the i-th queued entry, in queuing order,
/// and the N calls consume the whole queue.
pub proof fn lemma_fifo_order(queue: Seq<MockResponseOrError>, uris: Seq<Seq<char>>)
    requires
        uris.len() == queue.len(),
    ensures
        run_outcomes(queue, uris).len() == uris.len(),
        forall|i: int|
            0 <= i < uris.len() ==> run_outcomes(queue, uris)[i] == entry_outcome(
                queue[i],
                uris[i],
            ),
        queue_after_run(queue, uris.len() as nat) == Seq::<MockResponseOrError>::empty(),
    decreases uris.len(),
{
    if uris.len() == 0 {
        assert(queue_after_run(queue, 0) =~= Seq::<MockResponseOrError>::empty());
    } else {
        lemma_fifo_order(queue.drop_first(), uris.drop_first());
        let r = run_outcomes(queue, uris);
        let rest = run_outcomes(queue.drop_first(), uris.drop_first());
        assert(r[0] == entry_outcome(queue[0], uris[0]));
        assert forall|i: int| 1 <= i < uris.len() implies r[i] == entry_outcome(
            queue[i],
            uris[i],
        ) by {
            assert(r[i] == rest[i - 1]);
            assert(queue.drop_first()[i - 1] == queue[i]);
            assert(uris.drop_first()[i - 1] == uris[i]);
        }
    }
}

/// The request log after a sequence of `execute` calls: each call appends the
/// request it was given, as `MockState::execute` ensures.
pub open spec fn run_log(log: Seq<HttpRequest>, requests: Seq<HttpRequest>) -> Seq<HttpRequest>
    decreases requests.len(),
{
    if requests.len() == 0 {
        log
    } else {
        run_log(log.push(requests.first()), requests.drop_first())
    }
}

/// Log fidelity law: after any sequence of `execute` calls the log holds the
/// entries it started with followed by the executed requests, in call order
/// and unchanged; in particular its length grew by the number of calls.
pub proof fn lemma_log_fidelity(log: Seq<HttpRequest>, requests: Seq<HttpRequest>)
    ensures
        run_log(log, requests) == log + requests,
        run_log(log, requests).len() == log.len() + requests.len(),
    decreases requests.len(),
{
    if requests.len() == 0 {
        assert(run_log(log, requests) =~= log + requests);
    } else {
        lemma_log_fidelity(log.push(requests.first()), requests.drop_first());
        assert(log.push(requests.first()) + requests.drop_first() =~= log + requests);
    }
}

/// Default-response fallback law: an `execute` call on an empty queue always
/// succeeds, with status 200, an empty body, and the request's URL.
pub proof fn lemma_default_fallback(uri: Seq<char>)
    ensures
        execute_outcome(Seq::<MockResponseOrError>::empty(), uri) == (Outcome::Success {
            status: 200,
            body: Seq::<u8>::empty(),
            url: request_url(uri),
        }),
{
}

/// URL echo law: a queued response with no explicit URL resolves to the
/// requesting call's URL.
pub proof fn lemma_url_echo(m: MockResponse, uri: Seq<char>)
    requires
        m.url is None,
    ensures
        entry_outcome(MockResponseOrError::Response(m), uri) == (Outcome::Success {
            status: m.status,
            body: m.body@,
            url: request_url(uri),
        }),
{
}

/// The shared state of a mock client: the queue of pending entries and the
/// log of executed requests. One lock guards the whole state, so each
/// `execute` call's queue pop and log append happen together.
pub struct MockState {
    pub responses: VecDeque<MockResponseOrError>,
    pub requests: Vec<HttpRequest>,
}

impl MockState {
    /// An empty state: nothing queued, nothing logged.
    pub fn new() -> (r: Self)
        ensures
            r.responses@ == Seq::<MockResponseOrError>::empty(),
            r.requests@ == Seq::<HttpRequest>::empty(),
    {
        let r = MockState { responses: VecDeque::new(), requests: Vec::new() };
        proof {
            assert(r.requests@ =~= Seq::<HttpRequest>::empty());
        }
        r
    }

    /// Appends a response to the back of the queue; the log is untouched.
    pub fn queue_response(&mut self, response: MockResponse)
        ensures
            final(self).responses@ == old(self).responses@.push(
                MockResponseOrError::Response(response),
            ),
            final(self).requests@ == old(self).requests@,
    {
        self.responses.push_back(MockResponseOrError::Response(response));
    }

    /// Appends an error to the back of the queue; the log is untouched.
    pub fn queue_error(&mut self, message: String)
        ensures
            final(self).responses@ == old(self).responses@.push(
                MockResponseOrError::Error(message),
            ),
            final(self).requests@ == old(self).requests@,
    {
        self.responses.push_back(MockResponseOrError::Error(message));
    }

    /// Logs the request, consumes the front queue entry (or synthesizes the
    /// default response where the queue is empty), and yields that entry's
    /// outcome with its URL resolved.
    pub fn execute(&mut self, request: HttpRequest) -> (r: Result<
        Response<MockResponse>,
        HttpError,
    >)
        ensures
            final(self).requests@ == old(self).requests@.push(request),
            final(self).responses@ == queue_after_execute(old(self).responses@),
            outcome_matches(r, execute_outcome(old(self).responses@, request@.uri)),
    {
        let uri = request.uri.clone();
        self.requests.push(request);
        match self.responses.pop_front() {
            None => {
                let url = resolve_request_url(uri.as_str());
                Ok(Response::new(MockResponse { status: 200, body: Vec::new(), url: Some(url) }))
            },
            Some(MockResponseOrError::Response(m)) => {
                let url = match m.url {
                    Some(u) => u,
                    None => resolve_request_url(uri.as_str()),
                };
                Ok(Response::new(MockResponse { status: m.status, body: m.body, url: Some(url) }))
            },
            Some(MockResponseOrError::Error(message)) => Err(HttpError::new(message)),
        }
    }

    /// The number of logged requests.
    pub fn request_count(&self) -> (n: usize)
        ensures
            n == self.requests@.len(),
    {
        self.requests.len()
    }

    /// A snapshot of the full ordered request log.
    pub fn requests(&self) -> (r: Vec<HttpRequest>)
        ensures
            r@.len() == self.requests@.len(),
            forall|i: int| 0 <= i < r@.len() ==> r@[i]@ == self.requests@[i]@,
    {
        let mut r: Vec<HttpRequest> = Vec::new();
        let mut i: usize = 0;
        while i < self.requests.len()
            invariant
                i <= self.requests@.len(),
                r@.len() == i,
                forall|j: int| 0 <= j < i ==> r@[j]@ == self.requests@[j]@,
            decreases self.requests@.len() - i,
        {
            r.push(self.requests[i].duplicate());
            i += 1;
        }
        r
    }

    /// The most recently logged request, or nothing where the log is empty.
    pub fn last_request(&self) -> (r: Option<HttpRequest>)
        ensures
            match r {
                Some(q) => self.requests@.len() > 0 && q@ == self.requests@.last()@,
                None => self.requests@.len() == 0,
            },
    {
        if self.requests.len() == 0 {
            None
        } else {
            Some(self.requests[self.requests.len() - 1].duplicate())
        }
    }

    /// Empties the log; the queue is untouched, so a subsequent `execute`
    /// still consumes the next queued entry.
    pub fn clear_requests(&mut self)
        ensures
            final(self).requests@ == Seq::<HttpRequest>::empty(),
            final(self).responses@ == old(self).responses@,
    {
        self.requests.clear();
    }
}

/// The predicate of the lock guarding a client's state: every state is legal,
/// the lock serves only for shared mutation.
pub struct MockStateInv {}

impl RwLockPredicate<MockState> for MockStateInv {
    open spec fn inv(self, v: MockState) -> bool {
        true
    }
}

/// A mock HTTP client for testing code written against `HttpClient` without
/// performing real network I/O: it replays queued responses and errors in
/// FIFO order and records every request it executes.
///
/// A handle is a reference to one heap-allocated, lock-guarded state block;
/// cloning the handle copies the reference, not the state, so all clones
/// observe the same queue and log. The lock hides the shared state from the
/// contracts of this type's methods: each method here is a lock acquisition
/// around the `MockState` method of the same name, whose contract states
/// exactly what the operation does to the state.
#[derive(Clone)]
pub struct MockHttpClient {
    state: Arc<RwLock<MockState, MockStateInv>>,
}

impl MockHttpClient {
    /// A client with no pre-configured responses and an empty request log.
    pub fn new() -> (r: Self) {
        MockHttpClient { state: Arc::new(RwLock::new(MockState::new(), Ghost(MockStateInv {}))) }
    }

    /// Appends a response to the back of the shared queue and returns the
    /// client, for builder-style chaining. See `MockState::queue_response`.
    pub fn with_response(self, response: MockResponse) -> (r: Self) {
        self.queue_response(response);
        self
    }

    /// Appends an error to the back of the shared queue and returns the
    /// client, for builder-style chaining. See `MockState::queue_error`.
    pub fn with_error(self, error: &str) -> (r: Self) {
        self.queue_error(error);
        self
    }

    /// Appends a response to the back of the shared queue, to be returned by
    /// a future call to `execute`. See `MockState::queue_response`.
    pub fn queue_response(&self, response: MockResponse) {
        let (mut st, handle) = self.state.acquire_write();
        st.queue_response(response);
        handle.release_write(st);
    }

    /// Appends an error to the back of the shared queue, to be returned by a
    /// future call to `execute`. See `MockState::queue_error`.
    pub fn queue_error(&self, error: &str) {
        let (mut st, handle) = self.state.acquire_write();
        st.queue_error(error.to_owned());
        handle.release_write(st);
    }

    /// A snapshot of all requests executed against this client, in call
    /// order. See `MockState::requests`.
    pub fn requests(&self) -> (r: Vec<HttpRequest>) {
        let handle = self.state.acquire_read();
        let r = handle.borrow().requests();
        handle.release_read();
        r
    }

    /// The number of requests executed against this client. See
    /// `MockState::request_count`.
    pub fn request_count(&self) -> (n: usize) {
        let handle = self.state.acquire_read();
        let n = handle.borrow().request_count();
        handle.release_read();
        n
    }

    /// Empties the shared request log; queued responses are untouched. See
    /// `MockState::clear_requests`.
    pub fn clear_requests(&self) {
        let (mut st, handle) = self.state.acquire_write();
        st.clear_requests();
        handle.release_write(st);
    }

    /// The most recently executed request, or nothing where the log is
    /// empty. See `MockState::last_request`.
    pub fn last_request(&self) -> (r: Option<HttpRequest>) {
        let handle = self.state.acquire_read();
        let r = handle.borrow().last_request();
        handle.release_read();
        r
    }
}

impl Default for MockHttpClient {
    /// The same client `new` builds: nothing queued, nothing logged.
    fn default() -> Self {
        Self::new()
    }
}

impl HttpClient for MockHttpClient {
    type Response = MockResponse;

    /// Logs the request and consumes the front entry of the shared queue,
    /// synthesizing the default response where the queue is empty. See
    /// `MockState::execute` for the exact contract.
    fn execute(&self, request: HttpRequest) -> Result<Response<MockResponse>, HttpError> {
        let (mut st, handle) = self.state.acquire_write();
        let r = st.execute(request);
        handle.release_write(st);
        r
    }
}

} // verus!
