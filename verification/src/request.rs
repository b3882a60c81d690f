//! A parsed request, as it is handed to a handler.

use vstd::prelude::*;
use vstd::string::*;
use std::collections::HashMap;
use crate::method::HttpMethod;

verus! {

/// What every request carries as its body: bodies are never read from the
/// connection.
pub const BODY_PLACEHOLDER: &'static str = "todo";

/// A request, read from its request line. The header lines that follow the
/// request line are dropped, so `headers` is always empty, and `body` always
/// holds [`BODY_PLACEHOLDER`].
#[derive(Clone, Debug)]
pub struct HttpRequest {
    method: HttpMethod,
    path: String,
    headers: HashMap<String, String>,
    body: String,
}

/// The mathematical value of an [`HttpRequest`].
pub struct HttpRequestView {
    pub method: HttpMethod,
    pub path: Seq<char>,
    pub headers: Map<String, String>,
    pub body: Seq<char>,
}

impl HttpRequestView {
    /// The request that a request line with this method and path stands for.
    pub open spec fn of_line(method: HttpMethod, path: Seq<char>) -> HttpRequestView {
        HttpRequestView { method, path, headers: Map::empty(), body: BODY_PLACEHOLDER@ }
    }
}

impl View for HttpRequest {
    type V = HttpRequestView;

    closed spec fn view(&self) -> HttpRequestView {
        HttpRequestView {
            method: self.method,
            path: self.path@,
            headers: self.headers@,
            body: self.body@,
        }
    }
}

impl HttpRequest {
    /// The request for `path` with `method`, without headers and with the
    /// placeholder body.
    pub fn new(method: HttpMethod, path: String) -> (request: HttpRequest)
        ensures
            request@ == HttpRequestView::of_line(method, path@),
    {
        HttpRequest {
            method,
            path,
            headers: HashMap::new(),
            body: String::from_str(BODY_PLACEHOLDER),
        }
    }

    pub fn method(&self) -> (method: HttpMethod)
        ensures
            method == self@.method,
    {
        self.method
    }

    pub fn path(&self) -> (path: &str)
        ensures
            path@ == self@.path,
    {
        self.path.as_str()
    }

    pub fn headers(&self) -> (headers: &HashMap<String, String>)
        ensures
            headers@ == self@.headers,
    {
        &self.headers
    }

    pub fn body(&self) -> (body: &str)
        ensures
            body@ == self@.body,
    {
        self.body.as_str()
    }
}

} // verus!
