//! The request type the library's clients take: a plain record of method,
//! URI, headers and byte body.

use vstd::prelude::*;

verus! {

/// An HTTP request as this library models it: a method name, a request URI,
/// header name/value pairs, and a byte body.
#[derive(Debug)]
pub struct HttpRequest {
    pub method: String,
    pub uri: String,
    pub headers: Vec<(String, String)>,
    pub body: Vec<u8>,
}

/// The mathematical view of a request: every field as a sequence.
pub struct HttpRequestView {
    pub method: Seq<char>,
    pub uri: Seq<char>,
    pub headers: Seq<(Seq<char>, Seq<char>)>,
    pub body: Seq<u8>,
}

impl View for HttpRequest {
    type V = HttpRequestView;

    open spec fn view(&self) -> HttpRequestView {
        HttpRequestView {
            method: self.method@,
            uri: self.uri@,
            headers: self.headers@.map_values(|p: (String, String)| (p.0@, p.1@)),
            body: self.body@,
        }
    }
}

impl HttpRequest {
    /// Builds a request from its parts.
    pub fn new(method: &str, uri: &str, headers: Vec<(String, String)>, body: Vec<u8>) -> (r: Self)
        ensures
            r@.method == method@,
            r@.uri == uri@,
            r@.headers == headers@.map_values(|p: (String, String)| (p.0@, p.1@)),
            r@.body == body@,
    {
        HttpRequest { method: method.to_owned(), uri: uri.to_owned(), headers, body }
    }

    /// A GET request for the given URI, with no headers and an empty body.
    pub fn get(uri: &str) -> (r: Self)
        ensures
            r@.method == "GET"@,
            r@.uri == uri@,
            r@.headers == Seq::<(Seq<char>, Seq<char>)>::empty(),
            r@.body == Seq::<u8>::empty(),
    {
        let r = Self::new("GET", uri, Vec::new(), Vec::new());
        proof {
            assert(r@.headers =~= Seq::<(Seq<char>, Seq<char>)>::empty());
        }
        r
    }

    /// A POST request for the given URI, with no headers and the given body.
    pub fn post(uri: &str, body: Vec<u8>) -> (r: Self)
        ensures
            r@.method == "POST"@,
            r@.uri == uri@,
            r@.headers == Seq::<(Seq<char>, Seq<char>)>::empty(),
            r@.body == body@,
    {
        let r = Self::new("POST", uri, Vec::new(), body);
        proof {
            assert(r@.headers =~= Seq::<(Seq<char>, Seq<char>)>::empty());
        }
        r
    }

    /// An independent copy of the request, equal to the original in every field.
    pub fn duplicate(&self) -> (r: Self)
        ensures
            r@ == self@,
    {
        let mut headers: Vec<(String, String)> = Vec::new();
        let mut i: usize = 0;
        while i < self.headers.len()
            invariant
                i <= self.headers@.len(),
                headers@.len() == i,
                forall|j: int|
                    0 <= j < i ==> headers@[j].0@ == self.headers@[j].0@
                        && headers@[j].1@ == self.headers@[j].1@,
            decreases self.headers@.len() - i,
        {
            let p = &self.headers[i];
            headers.push((p.0.clone(), p.1.clone()));
            i += 1;
        }
        let r = HttpRequest {
            method: self.method.clone(),
            uri: self.uri.clone(),
            headers,
            body: clone_bytes(&self.body),
        };
        proof {
            assert(r@.headers =~~= self@.headers);
        }
        r
    }
}

/// An independent copy of a byte vector.
fn clone_bytes(v: &Vec<u8>) -> (r: Vec<u8>)
    ensures
        r@ == v@,
{
    let mut r: Vec<u8> = Vec::new();
    let mut i: usize = 0;
    while i < v.len()
        invariant
            i <= v@.len(),
            r@.len() == i,
            forall|j: int| 0 <= j < i ==> r@[j] == v@[j],
        decreases v@.len() - i,
    {
        r.push(v[i]);
        i += 1;
    }
    proof {
        assert(r@ =~= v@);
    }
    r
}

} // verus!
