use vstd::prelude::*;

use crate::method::Method;
use crate::url::{composed_url, parse_url, well_formed_params};

verus! {

/// A request as composed in the editor. `headers` and `params` hold rows of a
/// key and a value; `index` is the caller-assigned correlation index.
#[derive(Clone, Debug, PartialEq)]
pub struct Request {
    pub url: String,
    pub method: Method,
    pub body: String,
    pub headers: Vec<Vec<String>>,
    pub params: Vec<Vec<String>>,
    pub index: usize,
}

/// What is sent to the backend for one request: the parameters are already
/// folded into the URL.
#[derive(Clone, Debug, PartialEq)]
pub struct SendPayload {
    pub url: String,
    pub method: Method,
    pub body: String,
    pub headers: Vec<Vec<String>>,
    pub index: usize,
}

/// Builds the wire payload of a composed request.
pub fn send_payload(request: Request) -> (r: SendPayload)
    requires
        well_formed_params(request.params.deep_view()),
    ensures
        r.url@ == composed_url(request.url@, request.params.deep_view()),
        r.method == request.method,
        r.body == request.body,
        r.headers == request.headers,
        r.index == request.index,
{
    let Request { url, method, body, headers, params, index } = request;
    SendPayload { url: parse_url(url, params), method, body, headers, index }
}

} // verus!
