use vstd::prelude::*;
use vstd::string::*;

verus! {

/// The HTTP method of a composed request.
#[allow(non_camel_case_types)]
#[derive(Clone, Copy, Debug, PartialEq, Eq, Structural)]
pub enum Method {
    GET,
    POST,
    PUT,
    DELETE,
    HEAD,
    PATCH,
    OPTIONS,
    CONNECT,
}

/// The method that a selector value of the request editor stands for, if any.
pub open spec fn method_of_selector(s: Seq<char>) -> Option<Method> {
    if s == "get"@ {
        Some(Method::GET)
    } else if s == "post"@ {
        Some(Method::POST)
    } else if s == "put"@ {
        Some(Method::PUT)
    } else if s == "delete"@ {
        Some(Method::DELETE)
    } else if s == "head"@ {
        Some(Method::HEAD)
    } else if s == "patch"@ {
        Some(Method::PATCH)
    } else if s == "options"@ {
        Some(Method::OPTIONS)
    } else if s == "connect"@ {
        Some(Method::CONNECT)
    } else {
        None
    }
}

/// Character-wise equality of two strings.
pub fn same_text(a: &str, b: &str) -> (r: bool)
    ensures
        r == (a@ == b@),
{
    let n = a.unicode_len();
    let m = b.unicode_len();
    if n != m {
        return false;
    }
    let mut i: usize = 0;
    while i < n
        invariant
            n == a@.len(),
            m == b@.len(),
            n == m,
            i <= n,
            forall|j: int| 0 <= j < i ==> a@[j] == b@[j],
        decreases n - i,
    {
        if a.get_char(i) != b.get_char(i) {
            return false;
        }
        i = i + 1;
    }
    assert(a@ =~= b@);
    true
}

/// Reads a method selector value (`"get"`, `"post"`, ...).
pub fn parse_method(value: &str) -> (r: Option<Method>)
    ensures
        r == method_of_selector(value@),
{
    if same_text(value, "get") {
        Some(Method::GET)
    } else if same_text(value, "post") {
        Some(Method::POST)
    } else if same_text(value, "put") {
        Some(Method::PUT)
    } else if same_text(value, "delete") {
        Some(Method::DELETE)
    } else if same_text(value, "head") {
        Some(Method::HEAD)
    } else if same_text(value, "patch") {
        Some(Method::PATCH)
    } else if same_text(value, "options") {
        Some(Method::OPTIONS)
    } else if same_text(value, "connect") {
        Some(Method::CONNECT)
    } else {
        None
    }
}

/// The method to use for a selector value, and whether the value was
/// recognized. An unrecognized value falls back to GET; the caller reports it.
pub fn select_method(value: &str) -> (r: (Method, bool))
    ensures
        r.1 == method_of_selector(value@).is_some(),
        r.1 ==> Some(r.0) == method_of_selector(value@),
        !r.1 ==> r.0 == Method::GET,
{
    match parse_method(value) {
        Some(m) => (m, true),
        None => (Method::GET, false),
    }
}

} // verus!
