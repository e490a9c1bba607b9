use http_client::{
    is_header_name, is_header_value, step, status_is_success, token_char, Event, Form, Headers, HttpClient, HttpClientError, Method, Payload,
    Phase, Query, Request, Step, MAX_HEADERS, REQUEST_TIMEOUT_SECS,
};

fn response(status: u16, body: &str) -> reqwest::blocking::Response {
    let r = http::Response::builder().status(status).body(body.to_string()).unwrap();
    reqwest::blocking::Response::from(r)
}

fn run_call(response: reqwest::blocking::Response) -> Result<String, HttpClientError> {
    let status = response.status().as_u16();
    let (phase, next) = step(Phase::InFlight, Event::Responded { status, response });
    match next {
        Step::Done(outcome) => {
            assert!(matches!(phase, Phase::Finished));
            outcome
        }
        Step::ReadBody(resp) => {
            assert!(matches!(phase, Phase::ReadingBody));
            let event = match resp.text() {
                Ok(text) => Event::BodyText(text),
                Err(e) => Event::TransportFailed(e),
            };
            match step(phase, event) {
                (Phase::Finished, Step::Done(outcome)) => outcome,
                _ => panic!("a call must end after its body is read"),
            }
        }
    }
}

fn client() -> HttpClient {
    match HttpClient::new() {
        Ok(c) => c,
        Err(_) => panic!("the transport could not be initialised"),
    }
}

#[test]
fn new_client_builds() {
    assert!(HttpClient::new().is_ok());
    assert_eq!(REQUEST_TIMEOUT_SECS, 10);
}

#[test]
fn success_range_is_2xx() {
    assert!(status_is_success(200));
    assert!(status_is_success(201));
    assert!(status_is_success(299));
    assert!(!status_is_success(199));
    assert!(!status_is_success(300));
    assert!(!status_is_success(404));
    assert!(!status_is_success(503));
}

#[test]
fn verbs_pick_method_and_payload() {
    let q = Query::new();
    let f = Form::new();
    let v = serde_json::Value::Null;
    let r = Request::get("https://example.test/items", None, &q);
    assert_eq!(r.method, Method::Get);
    assert_eq!(r.url, "https://example.test/items");
    assert!(r.headers.is_none());
    assert!(matches!(r.payload, Payload::Query(_)));
    assert_eq!(Request::post("u", None, &v).method, Method::Post);
    assert!(matches!(Request::post("u", None, &v).payload, Payload::Json(_)));
    assert_eq!(Request::post_form("u", None, &f).method, Method::Post);
    assert!(matches!(Request::post_form("u", None, &f).payload, Payload::Form(_)));
    assert_eq!(Request::put("u", None, &v).method, Method::Put);
    assert_eq!(Request::delete("u", None, &v).method, Method::Delete);
    assert!(matches!(Request::delete("u", None, &v).payload, Payload::Json(_)));
}

#[test]
fn get_with_empty_query_has_no_query_string() {
    let client = client();
    let q = Query::new();
    let req = client.prepare(&Request::get("https://example.test/items", None, &q)).into_builder().build().unwrap();
    assert_eq!(req.method(), reqwest::Method::GET);
    assert_eq!(req.url().query(), None);
    assert_eq!(req.url().as_str(), "https://example.test/items");
}

#[test]
fn get_with_query_carries_exactly_its_pairs() {
    let client = client();
    let mut q = Query::new();
    q.insert("a".to_string(), "1".to_string());
    q.insert("b c".to_string(), "x&y".to_string());
    let req = client.prepare(&Request::get("https://example.test/items", None, &q)).into_builder().build().unwrap();
    let mut pairs: Vec<(String, String)> =
        req.url().query_pairs().map(|(k, v)| (k.into_owned(), v.into_owned())).collect();
    pairs.sort();
    assert_eq!(
        pairs,
        vec![("a".to_string(), "1".to_string()), ("b c".to_string(), "x&y".to_string())]
    );
}

#[test]
fn json_body_round_trips() {
    let client = client();
    let mut obj = serde_json::Map::new();
    obj.insert("name".to_string(), serde_json::Value::String("x".to_string()));
    obj.insert("n".to_string(), serde_json::Value::from(3));
    let v = serde_json::Value::Object(obj);
    for (req, method) in [
        (Request::post("https://example.test/items", None, &v), reqwest::Method::POST),
        (Request::put("https://example.test/items", None, &v), reqwest::Method::PUT),
        (Request::delete("https://example.test/items", None, &v), reqwest::Method::DELETE),
    ] {
        let built = client.prepare(&req).into_builder().build().unwrap();
        assert_eq!(built.method(), method);
        let bytes = built.body().unwrap().as_bytes().unwrap();
        let back: serde_json::Value = serde_json::from_slice(bytes).unwrap();
        assert_eq!(back, v);
        assert_eq!(built.headers()["content-type"], "application/json");
    }
}

#[test]
fn form_body_carries_exactly_its_pairs() {
    let client = client();
    let mut f = Form::new();
    f.insert("user".to_string(), "a b".to_string());
    f.insert("id".to_string(), "7".to_string());
    let built = client.prepare(&Request::post_form("https://example.test/f", None, &f)).into_builder().build().unwrap();
    assert_eq!(built.method(), reqwest::Method::POST);
    let body = std::str::from_utf8(built.body().unwrap().as_bytes().unwrap()).unwrap().to_string();
    let mut parts: Vec<&str> = body.split('&').collect();
    parts.sort();
    assert_eq!(parts, vec!["id=7", "user=a+b"]);
    assert_eq!(built.headers()["content-type"], "application/x-www-form-urlencoded");
}

#[test]
fn supplied_headers_reach_the_request() {
    let client = client();
    let mut h = Headers::new();
    h.insert("X-Token".to_string(), "abc".to_string());
    h.insert("Accept".to_string(), "text/plain".to_string());
    let v = serde_json::Value::Bool(true);
    let built = client.prepare(&Request::post("https://example.test/items", Some(&h), &v)).into_builder().build().unwrap();
    assert_eq!(built.headers()["x-token"], "abc");
    assert_eq!(built.headers()["accept"], "text/plain");
    assert_eq!(built.headers()["content-type"], "application/json");
}

#[test]
fn supplied_content_type_is_not_overridden() {
    let client = client();
    let mut h = Headers::new();
    h.insert("Content-Type".to_string(), "application/vnd.custom+json".to_string());
    let v = serde_json::Value::Null;
    let built = client.prepare(&Request::put("https://example.test/items", Some(&h), &v)).into_builder().build().unwrap();
    assert_eq!(built.headers()["content-type"], "application/vnd.custom+json");
}

#[test]
fn get_200_yields_body_text() {
    match run_call(response(200, "[]")) {
        Ok(text) => assert_eq!(text, "[]"),
        Err(_) => panic!("a 200 response must succeed"),
    }
}

#[test]
fn post_201_yields_body_text() {
    match run_call(response(201, "{\"id\":1}")) {
        Ok(text) => assert_eq!(text, "{\"id\":1}"),
        Err(_) => panic!("a 201 response must succeed"),
    }
}

#[test]
fn status_503_yields_status_error() {
    match run_call(response(503, "unavailable")) {
        Err(e) => {
            assert!(e.is_status_error());
            assert!(!e.is_transport_error());
            match e {
                HttpClientError::StatusCode(resp) => assert_eq!(resp.status().as_u16(), 503),
                HttpClientError::Client(_) => panic!("a 503 is no transport error"),
            }
        }
        Ok(_) => panic!("a 503 response must fail"),
    }
}

#[test]
fn status_404_and_500_keep_their_code() {
    for code in [404u16, 500u16] {
        match run_call(response(code, "")) {
            Err(HttpClientError::StatusCode(resp)) => assert_eq!(resp.status().as_u16(), code),
            _ => panic!("a non-2xx response must give a status error"),
        }
    }
}

#[test]
fn unreachable_host_yields_transport_error() {
    let client = client();
    let q = Query::new();
    let sent = client.prepare(&Request::get("http://127.0.0.1:1/items", None, &q)).into_builder().send();
    let event = match sent {
        Ok(response) => Event::Responded { status: response.status().as_u16(), response },
        Err(e) => Event::TransportFailed(e),
    };
    match step(Phase::InFlight, event) {
        (Phase::Finished, Step::Done(Err(e))) => {
            assert!(e.is_transport_error());
            assert!(!e.is_status_error());
        }
        _ => panic!("an unreachable host must give a transport error"),
    }
}

#[test]
fn header_names_are_tokens() {
    assert!(is_header_name("X-Token"));
    assert!(is_header_name("content-type"));
    assert!(is_header_name("a!#$%&'*+-.^_`|~9"));
    assert!(!is_header_name(""));
    assert!(!is_header_name("bad name"));
    assert!(!is_header_name("colon:"));
    assert!(!is_header_name("caf\u{e9}"));
    assert!(is_header_name(&"a".repeat(300)));
    assert!(!is_header_name(&"a".repeat(65536)));
    assert!(token_char('~'));
    assert!(!token_char('('));
}

#[test]
fn header_values_are_visible_ascii() {
    assert!(is_header_value(""));
    assert!(is_header_value("text/plain; charset=utf-8"));
    assert!(is_header_value("a\tb"));
    assert!(!is_header_value("line\nbreak"));
    assert!(!is_header_value("\u{7f}"));
    assert!(!is_header_value("caf\u{e9}"));
    assert_eq!(MAX_HEADERS, 4096);
}

#[test]
fn later_call_carries_no_earlier_headers() {
    let client = client();
    let mut h = Headers::new();
    h.insert("X-Token".to_string(), "abc".to_string());
    let q = Query::new();
    let first = client.prepare(&Request::get("https://example.test/a", Some(&h), &q)).into_builder().build().unwrap();
    assert_eq!(first.headers()["x-token"], "abc");
    let second = client.prepare(&Request::get("https://example.test/b", None, &q)).into_builder().build().unwrap();
    assert!(second.headers().get("x-token").is_none());
}
