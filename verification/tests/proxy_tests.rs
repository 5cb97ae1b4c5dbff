//! The proxy handler: credential injection, framing-header stripping, URL
//! joining, failure statuses, and verbatim response reconstruction.

use pocket_ark_client::headers::{is_valid_header_value, Header, Headers};
use pocket_ark_client::proxy::{
    inbound_body_failure_response, plan_proxy_request, proxy_error_response,
    relay_remote_response, InboundRequest, ProxyError, RemoteResponse,
};
use pocket_ark_client::session::{SessionContext, SessionError};

fn headers_of(pairs: &[(&str, &[u8])]) -> Headers {
    let mut entries = Vec::new();
    for (n, v) in pairs {
        entries.push(Header { name: n.to_string(), value: v.to_vec() });
    }
    Headers { entries }
}

fn session() -> SessionContext {
    SessionContext::new(
        "http://remote.example/".to_string(),
        b"session-token".to_vec(),
        None,
    )
    .unwrap()
}

fn request(target: &str, headers: Headers) -> InboundRequest {
    InboundRequest {
        method: "GET".to_string(),
        target: Some(target.to_string()),
        headers,
        body: b"payload".to_vec(),
    }
}

#[test]
fn outbound_credential_always_equals_session_token() {
    let inbound = headers_of(&[("accept", b"*/*"), ("x-token", b"forged-value")]);
    let out = plan_proxy_request(&request("/mp/stats", inbound), &session()).unwrap();
    let tokens: Vec<&[u8]> = out
        .headers
        .entries
        .iter()
        .filter(|h| h.name == "x-token")
        .map(|h| h.value.as_slice())
        .collect();
    assert_eq!(tokens, vec![b"session-token".as_slice()]);
}

#[test]
fn outbound_never_carries_framing_headers() {
    let inbound = headers_of(&[
        ("transfer-encoding", b"chunked"),
        ("content-length", b"7"),
        ("accept", b"*/*"),
    ]);
    let out = plan_proxy_request(&request("/a", inbound), &session()).unwrap();
    assert!(out.headers.entries.iter().all(|h| h.name != "transfer-encoding"));
    assert!(out.headers.entries.iter().all(|h| h.name != "content-length"));
    let names: Vec<&str> = out.headers.entries.iter().map(|h| h.name.as_str()).collect();
    assert_eq!(names, vec!["accept", "x-token"]);
}

#[test]
fn other_headers_and_order_are_preserved() {
    let inbound = headers_of(&[("b-first", b"1"), ("a-second", b"2"), ("c-third", b"3")]);
    let out = plan_proxy_request(&request("/a", inbound), &session()).unwrap();
    let pairs: Vec<(&str, &[u8])> = out
        .headers
        .entries
        .iter()
        .map(|h| (h.name.as_str(), h.value.as_slice()))
        .collect();
    assert_eq!(
        pairs,
        vec![
            ("b-first", b"1".as_slice()),
            ("a-second", b"2".as_slice()),
            ("c-third", b"3".as_slice()),
            ("x-token", b"session-token".as_slice()),
        ]
    );
}

#[test]
fn joined_url_substitutes_remote_base_and_keeps_path_and_query() {
    let out = plan_proxy_request(&request("/mp/stats?mode=all", Headers { entries: Vec::new() }), &session())
        .unwrap();
    assert_eq!(out.url, "http://remote.example/mp/stats?mode=all");
    assert_eq!(out.method, "GET");
    assert_eq!(out.body, b"payload".to_vec());
}

#[test]
fn absent_target_joins_to_base() {
    let mut req = request("/", Headers { entries: Vec::new() });
    req.target = None;
    let out = plan_proxy_request(&req, &session()).unwrap();
    assert_eq!(out.url, "http://remote.example/");
}

#[test]
fn join_failure_yields_503_before_any_remote_call() {
    let resp = plan_proxy_request(&request("http://[bad", Headers { entries: Vec::new() }), &session())
        .unwrap_err();
    assert_eq!(resp.status, 503);
    assert!(resp.body.is_empty());
    assert!(resp.headers.entries.is_empty());
}

#[test]
fn status_passes_through_for_each_class() {
    for status in [200u16, 404, 500] {
        let remote = RemoteResponse {
            status,
            headers: Headers { entries: Vec::new() },
            body: Vec::new(),
        };
        assert_eq!(relay_remote_response(remote).status, status);
    }
}

#[test]
fn created_response_round_trips_status_and_custom_headers() {
    let remote = RemoteResponse {
        status: 201,
        headers: headers_of(&[("x-first-custom", b"alpha"), ("x-second-custom", b"beta")]),
        body: b"created".to_vec(),
    };
    let local = relay_remote_response(remote);
    assert_eq!(local.status, 201);
    let pairs: Vec<(&str, &[u8])> = local
        .headers
        .entries
        .iter()
        .map(|h| (h.name.as_str(), h.value.as_slice()))
        .collect();
    assert_eq!(
        pairs,
        vec![("x-first-custom", b"alpha".as_slice()), ("x-second-custom", b"beta".as_slice())]
    );
    assert_eq!(local.body, b"created".to_vec());
}

#[test]
fn transport_failure_maps_to_500() {
    assert_eq!(proxy_error_response(&ProxyError::RequestFailed).status, 500);
    assert_eq!(proxy_error_response(&ProxyError::BodyFailed).status, 500);
}

#[test]
fn unreadable_inbound_body_maps_to_503() {
    assert_eq!(inbound_body_failure_response().status, 503);
}

#[test]
fn session_rejects_invalid_token_once_at_construction() {
    let err = SessionContext::new("http://remote.example/".to_string(), b"bad\x00token".to_vec(), None)
        .unwrap_err();
    assert!(matches!(err, SessionError::InvalidToken));
    let err = SessionContext::new(
        "http://remote.example/".to_string(),
        b"good-token".to_vec(),
        Some(b"bad\x7fassoc".to_vec()),
    )
    .unwrap_err();
    assert!(matches!(err, SessionError::InvalidAssociation));
    assert!(SessionContext::new(
        "http://remote.example/".to_string(),
        b"good-token".to_vec(),
        Some(b"good assoc\t".to_vec()),
    )
    .is_ok());
}

#[test]
fn header_value_validity_rule() {
    assert!(is_valid_header_value(b"plain value"));
    assert!(is_valid_header_value(b"tab\tinside"));
    assert!(is_valid_header_value(b""));
    assert!(!is_valid_header_value(b"nul\x00byte"));
    assert!(!is_valid_header_value(b"del\x7fbyte"));
    assert!(!is_valid_header_value(b"newline\n"));
    assert!(is_valid_header_value(&[0x80, 0xff]));
}
