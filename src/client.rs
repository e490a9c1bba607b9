use vstd::prelude::*;

use crate::error::HttpClientError;
use crate::request::{Form, Headers, Method, Payload, Query, Request, valid_headers};

verus! {

#[verifier::external_type_specification]
#[verifier::external_body]
pub struct ExClient(reqwest::blocking::Client);

#[verifier::external_type_specification]
#[verifier::external_body]
pub struct ExRequestBuilder(reqwest::blocking::RequestBuilder);

/// The timeout, in seconds, that bounds every request of a default client.
pub const REQUEST_TIMEOUT_SECS: u64 = 10;

/// One call made on a transport request while it is built.
pub enum Stage {
    /// Started with this method on this URL.
    Start(Method, Seq<char>),
    /// These headers were set on it.
    Headers(Map<String, String>),
    /// These pairs were appended to its query string.
    Query(Map<String, String>),
    /// This value was encoded as its JSON body.
    Json(serde_json::Value),
    /// These fields were encoded as its URL-encoded form body.
    Form(Map<String, String>),
}

/// A transport request being built, with the calls that built it, in order.
pub struct Outgoing {
    builder: reqwest::blocking::RequestBuilder,
    trail: Ghost<Seq<Stage>>,
}

impl Outgoing {
    /// The calls that built this request, in the order they were made.
    pub closed spec fn trail(&self) -> Seq<Stage> {
        self.trail@
    }

    /// The transport request, ready to be sent.
    pub fn into_builder(self) -> reqwest::blocking::RequestBuilder {
        self.builder
    }
}

/// Relies on reqwest's `blocking::ClientBuilder` with `timeout` and `build`:
/// on success, a client whose requests time out after `secs` seconds; an
/// error when the TLS backend or the resolver cannot be initialised. Like
/// every blocking reqwest client, it must not be built from within an async
/// runtime.
#[verifier::external_body]
fn build_client(secs: u64) -> (r: Result<HttpClient, reqwest::Error>)
    ensures
        r matches Ok(c) ==> c.timeout_spec() == secs,
{
    let built = reqwest::blocking::ClientBuilder::new()
        .timeout(std::time::Duration::from_secs(secs))
        .build();
    match built {
        Ok(client) => Ok(HttpClient { client, timeout_secs: Ghost(secs) }),
        Err(e) => Err(e),
    }
}

/// Relies on reqwest's `blocking::Client::get`: starts a GET request; a URL
/// that does not parse is kept for `send` to report.
#[verifier::external_body]
fn begin_get(client: &reqwest::blocking::Client, url: &str) -> (r: Outgoing)
    ensures
        r.trail() == seq![Stage::Start(Method::Get, url@)],
{
    Outgoing { builder: client.get(url), trail: Ghost(seq![Stage::Start(Method::Get, url@)]) }
}

/// Relies on reqwest's `blocking::Client::post`: starts a POST request; a URL
/// that does not parse is kept for `send` to report.
#[verifier::external_body]
fn begin_post(client: &reqwest::blocking::Client, url: &str) -> (r: Outgoing)
    ensures
        r.trail() == seq![Stage::Start(Method::Post, url@)],
{
    Outgoing { builder: client.post(url), trail: Ghost(seq![Stage::Start(Method::Post, url@)]) }
}

/// Relies on reqwest's `blocking::Client::put`: starts a PUT request; a URL
/// that does not parse is kept for `send` to report.
#[verifier::external_body]
fn begin_put(client: &reqwest::blocking::Client, url: &str) -> (r: Outgoing)
    ensures
        r.trail() == seq![Stage::Start(Method::Put, url@)],
{
    Outgoing { builder: client.put(url), trail: Ghost(seq![Stage::Start(Method::Put, url@)]) }
}

/// Relies on reqwest's `blocking::Client::delete`: starts a DELETE request; a
/// URL that does not parse is kept for `send` to report.
#[verifier::external_body]
fn begin_delete(client: &reqwest::blocking::Client, url: &str) -> (r: Outgoing)
    ensures
        r.trail() == seq![Stage::Start(Method::Delete, url@)],
{
    Outgoing {
        builder: client.delete(url),
        trail: Ghost(seq![Stage::Start(Method::Delete, url@)]),
    }
}

/// Relies on http's `HeaderMap: TryFrom<&HashMap<String, String>>`, which
/// succeeds when every name and value is valid, and whose map holds up to
/// 6553 entries without trying to grow past its largest table; and on
/// reqwest's `RequestBuilder::headers`, which sets them on the request.
#[verifier::external_body]
fn attach_headers(out: Outgoing, headers: &Headers) -> (r: Outgoing)
    requires
        valid_headers(headers@),
    ensures
        r.trail() == out.trail().push(Stage::Headers(headers@)),
{
    let map = reqwest::header::HeaderMap::try_from(headers).expect("valid header map");
    Outgoing {
        builder: out.builder.headers(map),
        trail: Ghost(out.trail@.push(Stage::Headers(headers@))),
    }
}

/// Relies on reqwest's `RequestBuilder::query`: appends the pairs to the
/// URL's query string; an encoding failure is kept for `send` to report.
#[verifier::external_body]
fn attach_query(out: Outgoing, query: &Query) -> (r: Outgoing)
    ensures
        r.trail() == out.trail().push(Stage::Query(query@)),
{
    Outgoing {
        builder: out.builder.query(query),
        trail: Ghost(out.trail@.push(Stage::Query(query@))),
    }
}

/// Relies on reqwest's `RequestBuilder::json`: encodes the value as the
/// body and sets `Content-Type` unless the request has one; an encoding
/// failure is kept for `send` to report.
#[verifier::external_body]
fn attach_json(out: Outgoing, value: &serde_json::Value) -> (r: Outgoing)
    ensures
        r.trail() == out.trail().push(Stage::Json(*value)),
{
    Outgoing {
        builder: out.builder.json(value),
        trail: Ghost(out.trail@.push(Stage::Json(*value))),
    }
}

/// Relies on reqwest's `RequestBuilder::form`: encodes the fields as a
/// URL-encoded body and sets `Content-Type` unless the request has one; an
/// encoding failure is kept for `send` to report.
#[verifier::external_body]
fn attach_form(out: Outgoing, form: &Form) -> (r: Outgoing)
    ensures
        r.trail() == out.trail().push(Stage::Form(form@)),
{
    Outgoing {
        builder: out.builder.form(form),
        trail: Ghost(out.trail@.push(Stage::Form(form@))),
    }
}

/// Relies on reqwest's `blocking::Client: Clone`: the copy shares the same
/// connection pool and configuration.
pub assume_specification[ <reqwest::blocking::Client as Clone>::clone ](
    client: &reqwest::blocking::Client,
) -> reqwest::blocking::Client;

/// The stage that attaches `payload`.
pub open spec fn payload_stage(payload: Payload) -> Stage {
    match payload {
        Payload::Query(q) => Stage::Query(q@),
        Payload::Json(v) => Stage::Json(*v),
        Payload::Form(f) => Stage::Form(f@),
    }
}

/// The calls that build `request`: start it with its method and URL, set
/// its headers if it has any, and only then attach its payload.
pub open spec fn build_trail(request: Request) -> Seq<Stage> {
    let start = seq![Stage::Start(request.method, request.url@)];
    let with_headers = match request.headers {
        Some(h) => start.push(Stage::Headers(h@)),
        None => start,
    };
    with_headers.push(payload_stage(request.payload))
}

/// The facade: one transport handle, created once and used for every
/// request.
#[derive(Clone)]
pub struct HttpClient {
    client: reqwest::blocking::Client,
    timeout_secs: Ghost<u64>,
}

impl HttpClient {
    /// The timeout, in seconds, that bounds each request of this client.
    pub closed spec fn timeout_spec(&self) -> u64 {
        self.timeout_secs@
    }

    /// A client whose requests time out after `REQUEST_TIMEOUT_SECS` seconds,
    /// or the transport error that kept it from being built.
    pub fn new() -> (r: Result<HttpClient, HttpClientError>)
        ensures
            r matches Ok(c) ==> c.timeout_spec() == REQUEST_TIMEOUT_SECS,
            r matches Err(e) ==> e is Client,
    {
        match build_client(REQUEST_TIMEOUT_SECS) {
            Ok(c) => Ok(c),
            Err(e) => Err(HttpClientError::Client(e)),
        }
    }

    /// Builds the transport request for `request`: starts it with the
    /// request's method and URL, sets the headers if there are any, and only
    /// then attaches the payload in the way the request asks.
    pub fn prepare(&self, request: &Request) -> (r: Outgoing)
        requires
            request.headers_valid(),
        ensures
            r.trail() == build_trail(*request),
    {
        let mut out = match request.method {
            Method::Get => begin_get(&self.client, request.url),
            Method::Post => begin_post(&self.client, request.url),
            Method::Put => begin_put(&self.client, request.url),
            Method::Delete => begin_delete(&self.client, request.url),
        };
        if let Some(headers) = request.headers {
            out = attach_headers(out, headers);
        }
        match request.payload {
            Payload::Query(query) => attach_query(out, query),
            Payload::Json(value) => attach_json(out, value),
            Payload::Form(form) => attach_form(out, form),
        }
    }
}

} // verus!
