//! Scenario tests for the behaviors the mock client's contracts state: FIFO
//! consumption across clones, the default-response fallback, URL resolution
//! and its placeholder, log fidelity, and the locality of clearing the log.

use anyhttp::mock::{MockHttpClient, MockResponse};
use anyhttp::{HttpClient, HttpRequest};

#[test]
fn two_queued_responses_arrive_in_order_with_count() {
    let client = MockHttpClient::new()
        .with_response(MockResponse::new(200).body(b"first".to_vec()))
        .with_response(MockResponse::new(201).body(b"second".to_vec()));

    let first = client.execute(HttpRequest::get("https://example.com")).unwrap();
    assert_eq!(first.status(), 200);
    assert_eq!(first.bytes().unwrap().as_slice(), b"first");

    let second = client.execute(HttpRequest::get("https://example.com")).unwrap();
    assert_eq!(second.status(), 201);
    assert_eq!(second.bytes().unwrap().as_slice(), b"second");

    assert_eq!(client.request_count(), 2);
}

#[test]
fn queued_error_message_is_returned_verbatim() {
    let client = MockHttpClient::new().with_error("boom");

    let result = client.execute(HttpRequest::get("https://example.com"));

    assert_eq!(result.unwrap_err().message().as_str(), "boom");
}

#[test]
fn default_fallback_has_status_200_and_empty_body() {
    let client = MockHttpClient::new();

    let response = client.execute(HttpRequest::get("https://example.com")).unwrap();

    assert_eq!(response.status(), 200);
    assert_eq!(response.bytes().unwrap().as_slice(), b"");
}

#[test]
fn default_fallback_echoes_request_url() {
    let client = MockHttpClient::new();

    let response = client.execute(HttpRequest::get("https://example.com/path")).unwrap();

    assert_eq!(response.url().as_str(), "https://example.com/path");
}

#[test]
fn echoed_url_is_normalized() {
    // url::Url::parse appends the root path to an authority-only URL, so the
    // echoed URL is the request URI normalized, not the URI text itself.
    let client = MockHttpClient::new().with_response(MockResponse::new(200));

    let response = client.execute(HttpRequest::get("https://example.com")).unwrap();

    assert_eq!(response.url().as_str(), "https://example.com/");
}

#[test]
fn unparsable_request_uri_falls_back_to_placeholder_url() {
    let client = MockHttpClient::new().with_response(MockResponse::new(200));

    let response = client.execute(HttpRequest::get("not a url")).unwrap();

    assert_eq!(response.url().as_str(), "http://mock.test/");
}

#[test]
fn unparsable_explicit_url_falls_back_to_request_url() {
    let client = MockHttpClient::new().with_response(MockResponse::new(200).url("not a url"));

    let response = client.execute(HttpRequest::get("https://example.com/kept")).unwrap();

    assert_eq!(response.url().as_str(), "https://example.com/kept");
}

#[test]
fn clear_requests_leaves_queue_intact() {
    let client = MockHttpClient::new()
        .with_response(MockResponse::new(201).body(b"first".to_vec()))
        .with_response(MockResponse::new(202).body(b"second".to_vec()));

    client.execute(HttpRequest::get("https://example.com/a")).unwrap();
    assert_eq!(client.request_count(), 1);

    client.clear_requests();
    assert_eq!(client.request_count(), 0);

    // The second queued entry is still pending and is consumed next.
    let response = client.execute(HttpRequest::get("https://example.com/b")).unwrap();
    assert_eq!(response.status(), 202);
    assert_eq!(response.bytes().unwrap().as_slice(), b"second");
    assert_eq!(client.request_count(), 1);
}

#[test]
fn log_preserves_order_bodies_and_uris() {
    let client = MockHttpClient::new();

    client.execute(HttpRequest::post("https://example.com/1", b"one".to_vec())).unwrap();
    client.execute(HttpRequest::post("https://example.com/2", b"two".to_vec())).unwrap();
    client.execute(HttpRequest::get("https://example.com/3")).unwrap();

    assert_eq!(client.request_count(), 3);
    let requests = client.requests();
    assert_eq!(requests.len(), 3);
    assert_eq!(requests[0].uri, "https://example.com/1");
    assert_eq!(requests[0].body.as_slice(), b"one");
    assert_eq!(requests[0].method, "POST");
    assert_eq!(requests[1].uri, "https://example.com/2");
    assert_eq!(requests[1].body.as_slice(), b"two");
    assert_eq!(requests[2].uri, "https://example.com/3");
    assert_eq!(requests[2].method, "GET");
}

#[test]
fn entry_queued_via_one_clone_is_consumed_via_the_other() {
    let client = MockHttpClient::new();
    let cloned = client.clone();

    cloned.queue_response(MockResponse::new(418));

    let response = client.execute(HttpRequest::get("https://example.com")).unwrap();
    assert_eq!(response.status(), 418);

    assert_eq!(client.request_count(), 1);
    assert_eq!(cloned.request_count(), 1);
}
