use dflow_api_client::prediction::websocket::handshake::{url_host, HandshakeRequest};
use dflow_api_client::prediction::websocket::{DEFAULT_PING_INTERVAL_SECS, DEFAULT_WS_URL};

fn pairs(request: &HandshakeRequest) -> Vec<(&str, &str)> {
    request.headers.iter().map(|(k, v)| (k.as_str(), v.as_str())).collect()
}

#[test]
fn url_host_takes_what_stands_before_the_first_slash() {
    assert_eq!(url_host("wss://example.com/api/v1/ws"), Some("example.com"));
    assert_eq!(url_host("ws://example.com:8080/x"), Some("example.com:8080"));
    assert_eq!(url_host("https://a.b/c/d"), Some("a.b"));
    assert_eq!(url_host("http://host"), Some("host"));
    assert_eq!(url_host("wss://"), Some(""));
    assert_eq!(url_host("wss:///path"), Some(""));
    assert_eq!(url_host("ws://h\u{f6}st.example/\u{e9}"), Some("h\u{f6}st.example"));
}

#[test]
fn url_host_needs_a_known_scheme() {
    assert_eq!(url_host("ftp://example.com/"), None);
    assert_eq!(url_host("example.com/path"), None);
    assert_eq!(url_host("WSS://example.com"), None);
    assert_eq!(url_host("wss:/example.com"), None);
    assert_eq!(url_host(""), None);
    assert_eq!(url_host("ws"), None);
}

#[test]
fn default_constants() {
    assert_eq!(DEFAULT_WS_URL, "wss://prediction-markets-api.dflow.net/api/v1/ws");
    assert_eq!(DEFAULT_PING_INTERVAL_SECS, 30);
    assert_eq!(url_host(DEFAULT_WS_URL), Some("prediction-markets-api.dflow.net"));
}

#[test]
fn handshake_request_with_a_given_key() {
    let request = HandshakeRequest::with_key(
        "wss://example.com/ws",
        "a2V5",
        &[("Authorization", "Bearer t"), ("X-Trace", "1")],
    );
    assert_eq!(request.uri, "wss://example.com/ws");
    assert_eq!(
        pairs(&request),
        vec![
            ("Host", "example.com"),
            ("Connection", "Upgrade"),
            ("Upgrade", "websocket"),
            ("Sec-WebSocket-Version", "13"),
            ("Sec-WebSocket-Key", "a2V5"),
            ("Authorization", "Bearer t"),
            ("X-Trace", "1"),
        ]
    );
}

#[test]
fn handshake_request_for_a_url_without_host() {
    let request = HandshakeRequest::with_key("example.com", "k", &[]);
    assert_eq!(request.uri, "example.com");
    assert_eq!(request.headers.len(), 5);
    assert_eq!(pairs(&request)[0], ("Host", ""));
}

#[test]
fn handshake_request_draws_a_fresh_key() {
    let first = HandshakeRequest::new("ws://h/p", &[("A", "b")]);
    let second = HandshakeRequest::new("ws://h/p", &[("A", "b")]);
    assert_eq!(first.headers.len(), 6);
    assert_eq!(first.headers[4].0, "Sec-WebSocket-Key");
    assert_eq!(first.headers[4].1.len(), 24);
    assert_ne!(first.headers[4].1, second.headers[4].1);
    assert_eq!(pairs(&first)[0], ("Host", "h"));
    assert_eq!(pairs(&first)[5], ("A", "b"));
    let same = HandshakeRequest::with_key("ws://h/p", &first.headers[4].1, &[("A", "b")]);
    assert_eq!(same.uri, first.uri);
    assert_eq!(same.headers, first.headers);
}

#[test]
fn handshake_request_for_the_default_endpoint() {
    let request = HandshakeRequest::default_endpoint();
    assert_eq!(request.uri, DEFAULT_WS_URL);
    assert_eq!(request.headers.len(), 5);
    assert_eq!(pairs(&request)[0], ("Host", "prediction-markets-api.dflow.net"));
}

#[test]
fn handshake_request_with_an_api_key() {
    let request = HandshakeRequest::with_api_key("secret");
    assert_eq!(request.uri, DEFAULT_WS_URL);
    assert_eq!(request.headers.len(), 6);
    assert_eq!(pairs(&request)[5], ("Authorization", "Bearer secret"));
}
