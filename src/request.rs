use vstd::prelude::*;

use std::collections::HashMap;

verus! {

#[verifier::external_type_specification]
#[verifier::external_body]
pub struct ExJsonValue(serde_json::Value);

/// Header names mapped to header values.
pub type Headers = HashMap<String, String>;

/// Query parameters of a GET request, by key.
pub type Query = HashMap<String, String>;

/// Fields of a URL-encoded form body, by key.
pub type Form = HashMap<String, String>;

/// The HTTP methods this client issues.
#[derive(Clone, Copy, Debug, PartialEq, Eq, Structural)]
pub enum Method {
    Get,
    Post,
    Put,
    Delete,
}

/// How the payload of a request is attached to it.
pub enum Payload<'a> {
    /// As URL query parameters.
    Query(&'a Query),
    /// Encoded as a JSON body.
    Json(&'a serde_json::Value),
    /// Encoded as a URL-encoded form body.
    Form(&'a Form),
}

/// One request, before it is handed to the transport: the method, the
/// target URL, the headers if any, and the payload with the way it is to be
/// attached.
pub struct Request<'a> {
    pub method: Method,
    pub url: &'a str,
    pub headers: Option<&'a Headers>,
    pub payload: Payload<'a>,
}

/// A character that may stand in a header name: a token character.
pub open spec fn is_token_char(c: char) -> bool {
    ||| 'a' <= c <= 'z'
    ||| 'A' <= c <= 'Z'
    ||| '0' <= c <= '9'
    ||| c == '!' || c == '#' || c == '$' || c == '%' || c == '&' || c == '\''
    ||| c == '*' || c == '+' || c == '-' || c == '.' || c == '^' || c == '_'
    ||| c == '`' || c == '|' || c == '~'
}

/// A header name of one to 65535 token characters.
pub open spec fn valid_header_name(name: Seq<char>) -> bool {
    &&& 0 < name.len() < 65536
    &&& forall|i: int| 0 <= i < name.len() ==> #[trigger] is_token_char(name[i])
}

/// A header value of visible ASCII characters, spaces and tabs.
pub open spec fn valid_header_value(value: Seq<char>) -> bool {
    forall|i: int|
        0 <= i < value.len() ==> (#[trigger] value[i] == '\t' || (' ' <= value[i] <= '~'))
}

/// The most headers that one request may carry.
pub const MAX_HEADERS: usize = 4096;

/// Headers that the transport can carry: at most `MAX_HEADERS` of them,
/// each with a valid name and a valid value.
pub open spec fn valid_headers(headers: Map<String, String>) -> bool {
    &&& headers.dom().len() <= MAX_HEADERS
    &&& forall|k: String|
        #[trigger] headers.contains_key(k) ==> valid_header_name(k@) && valid_header_value(
            headers[k]@,
        )
}

/// Whether `c` is a token character.
pub fn token_char(c: char) -> (r: bool)
    ensures
        r == is_token_char(c),
{
    ('a' <= c && c <= 'z') || ('A' <= c && c <= 'Z') || ('0' <= c && c <= '9') || c == '!' || c
        == '#' || c == '$' || c == '%' || c == '&' || c == '\'' || c == '*' || c == '+' || c == '-'
        || c == '.' || c == '^' || c == '_' || c == '`' || c == '|' || c == '~'
}

/// Whether `name` is a valid header name.
pub fn is_header_name(name: &str) -> (r: bool)
    ensures
        r == valid_header_name(name@),
{
    let n = name.unicode_len();
    if n == 0 || n >= 65536 {
        return false;
    }
    let mut i: usize = 0;
    while i < n
        invariant
            n == name@.len(),
            i <= n,
            forall|j: int| 0 <= j < i ==> #[trigger] is_token_char(name@[j]),
        decreases n - i,
    {
        if !token_char(name.get_char(i)) {
            return false;
        }
        i = i + 1;
    }
    true
}

/// Whether `value` is a valid header value.
pub fn is_header_value(value: &str) -> (r: bool)
    ensures
        r == valid_header_value(value@),
{
    let n = value.unicode_len();
    let mut i: usize = 0;
    while i < n
        invariant
            n == value@.len(),
            i <= n,
            forall|j: int|
                0 <= j < i ==> (#[trigger] value@[j] == '\t' || (' ' <= value@[j] <= '~')),
        decreases n - i,
    {
        let c = value.get_char(i);
        if !(c == '\t' || (' ' <= c && c <= '~')) {
            return false;
        }
        i = i + 1;
    }
    true
}

impl<'a> Request<'a> {
    /// Whether the headers of this request, if any, are valid.
    pub open spec fn headers_valid(&self) -> bool {
        match self.headers {
            Some(h) => valid_headers(h@),
            None => true,
        }
    }

    /// A GET request whose query parameters are exactly `payload`.
    pub fn get(url: &'a str, headers: Option<&'a Headers>, payload: &'a Query) -> (r: Request<'a>)
        ensures
            r == (Request { method: Method::Get, url, headers, payload: Payload::Query(payload) }),
    {
        Request { method: Method::Get, url, headers, payload: Payload::Query(payload) }
    }

    /// A POST request with `payload` as its JSON body.
    pub fn post(
        url: &'a str,
        headers: Option<&'a Headers>,
        payload: &'a serde_json::Value,
    ) -> (r: Request<'a>)
        ensures
            r == (Request { method: Method::Post, url, headers, payload: Payload::Json(payload) }),
    {
        Request { method: Method::Post, url, headers, payload: Payload::Json(payload) }
    }

    /// A POST request with `payload` as its URL-encoded form body.
    pub fn post_form(
        url: &'a str,
        headers: Option<&'a Headers>,
        payload: &'a Form,
    ) -> (r: Request<'a>)
        ensures
            r == (Request { method: Method::Post, url, headers, payload: Payload::Form(payload) }),
    {
        Request { method: Method::Post, url, headers, payload: Payload::Form(payload) }
    }

    /// A PUT request with `payload` as its JSON body.
    pub fn put(
        url: &'a str,
        headers: Option<&'a Headers>,
        payload: &'a serde_json::Value,
    ) -> (r: Request<'a>)
        ensures
            r == (Request { method: Method::Put, url, headers, payload: Payload::Json(payload) }),
    {
        Request { method: Method::Put, url, headers, payload: Payload::Json(payload) }
    }

    /// A DELETE request with `payload` as its JSON body.
    pub fn delete(
        url: &'a str,
        headers: Option<&'a Headers>,
        payload: &'a serde_json::Value,
    ) -> (r: Request<'a>)
        ensures
            r == (Request { method: Method::Delete, url, headers, payload: Payload::Json(payload) }),
    {
        Request { method: Method::Delete, url, headers, payload: Payload::Json(payload) }
    }
}

} // verus!
