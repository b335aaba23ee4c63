//! Tests for the wrappers around reqwest's native types.

use anyhttp::reqwest_client::{convert_request, ReqwestClientWrapper};

#[test]
fn wrapper_owns_the_given_client() {
    let client = reqwest::Client::new();
    let wrapper = ReqwestClientWrapper::new(client.clone());
    // The wrapper holds exactly the client it was given.
    let _inner: &reqwest::Client = &wrapper.inner;
}

#[test]
fn convert_request_accepts_an_absolute_uri() {
    let request = http::Request::get("https://example.com/products")
        .body(b"payload".to_vec())
        .unwrap();

    let converted = convert_request(request).unwrap();
    assert_eq!(converted.url().as_str(), "https://example.com/products");
    assert_eq!(converted.method().as_str(), "GET");
}

#[test]
fn convert_request_rejects_a_relative_uri() {
    let request = http::Request::get("/relative/only").body(Vec::new()).unwrap();

    assert!(convert_request(request).is_err());
}
