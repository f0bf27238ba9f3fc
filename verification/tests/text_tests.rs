use iterm2_client::auth::{credentials_from_env, osascript_credentials, parse_cookie_key};
use iterm2_client::connection::{route, server_reply, stamp, DecodeFailures, RequestIds, Route};
use iterm2_client::proto;
use iterm2_client::text::{i32_text, split_white_space, u64_text};
use iterm2_client::transport::{handshake_headers, MAX_FRAME_SIZE, MAX_MESSAGE_SIZE};
use iterm2_client::Error;

#[test]
fn decimal_rendering() {
    assert_eq!(u64_text(0), "0");
    assert_eq!(u64_text(9), "9");
    assert_eq!(u64_text(10), "10");
    assert_eq!(u64_text(u64::MAX), u64::MAX.to_string());
    assert_eq!(u64_text(4096), "4096");
    assert_eq!(i32_text(42), "42");
    assert_eq!(i32_text(-7), "-7");
    assert_eq!(i32_text(i32::MIN), i32::MIN.to_string());
    assert_eq!(i32_text(i32::MAX), i32::MAX.to_string());
}

#[test]
fn splitting_on_white_space_agrees_with_std() {
    for s in ["", "   ", "a", "abc123 def456", "  a\tb\n\nc  ", "x\u{3000}y\u{a0}z", "é ü"] {
        let ours = split_white_space(s);
        let std_words: Vec<&str> = s.split_whitespace().collect();
        assert_eq!(ours, std_words, "input {s:?}");
    }
}

#[test]
fn cookie_key_parsing() {
    let c = parse_cookie_key("abc123 def456").unwrap();
    assert_eq!((c.cookie.as_str(), c.key.as_str()), ("abc123", "def456"));
    let c = parse_cookie_key("  abc123\r\n\tdef456 \n").unwrap();
    assert_eq!((c.cookie.as_str(), c.key.as_str()), ("abc123", "def456"));
    let err = parse_cookie_key("a b c").err().unwrap();
    assert_eq!(
        err.to_string(),
        "Authentication failed: Failed to parse cookie/key from osascript output: \"a b c\""
    );
    let err = parse_cookie_key("").err().unwrap();
    assert!(err.to_string().contains("Failed to parse"));
}

#[test]
fn environment_credentials() {
    let c = credentials_from_env(Some("c".to_string()), Some("k".to_string())).unwrap();
    assert_eq!((c.cookie.as_str(), c.key.as_str()), ("c", "k"));
    assert!(credentials_from_env(Some("c".to_string()), None).is_none());
    assert!(credentials_from_env(None, Some("k".to_string())).is_none());
    assert!(credentials_from_env(Some("".to_string()), Some("k".to_string())).is_none());
    assert!(credentials_from_env(Some("c".to_string()), Some("".to_string())).is_none());
}

#[test]
fn osascript_outcomes() {
    let err = osascript_credentials(Err("connection refused".to_string())).err().unwrap();
    assert_eq!(err.to_string(), "Authentication failed: osascript failed: connection refused");
    let c = osascript_credentials(Ok("abc123\ndef456".to_string())).unwrap();
    assert_eq!(c.key, "def456");
}

#[test]
fn request_ids_count_up_from_one() {
    let mut ids = RequestIds::new();
    assert_eq!(ids.fresh(), Some(1));
    assert_eq!(ids.fresh(), Some(2));
    assert_eq!(ids.fresh(), Some(3));
    let msg = stamp(iterm2_client::request::list_sessions(), 3);
    assert_eq!(msg.id, Some(3));
    assert!(matches!(
        msg.submessage,
        Some(proto::client_originated_message::Submessage::ListSessionsRequest(_))
    ));
}

#[test]
fn server_error_becomes_api_error() {
    let resp = proto::ServerOriginatedMessage {
        id: Some(1),
        submessage: Some(proto::server_originated_message::Submessage::Error(
            "malformed request".to_string(),
        )),
    };
    let err = server_reply(resp).unwrap_err();
    let msg = err.to_string();
    assert!(msg.contains("malformed request"), "got: {msg}");
    assert_eq!(msg, "API error from server: malformed request");
    let long = "x".repeat(600);
    let resp = proto::ServerOriginatedMessage {
        id: Some(1),
        submessage: Some(proto::server_originated_message::Submessage::Error(long)),
    };
    match server_reply(resp) {
        Err(Error::Api(s)) => assert_eq!(s.chars().count(), 512),
        _ => panic!("expected an API error"),
    }
    let ok = proto::ServerOriginatedMessage { id: Some(2), submessage: None };
    assert_eq!(server_reply(ok).unwrap().id, Some(2));
}

#[test]
fn error_texts() {
    assert_eq!(Error::ConnectionClosed.to_string(), "Connection closed");
    assert_eq!(
        Error::Timeout { secs: 0, nanos: 100_000_000 }.to_string(),
        "Request timed out after 100ms"
    );
    assert!(Error::Timeout { secs: 0, nanos: 100_000_000 }.to_string().contains("timed out"));
    assert_eq!(Error::WebSocket("boom".to_string()).to_string(), "WebSocket error: boom");
    assert_eq!(Error::Io("gone".to_string()).to_string(), "I/O error: gone");
    assert_eq!(Error::Decode("bad".to_string()).to_string(), "Protobuf decode error: bad");
}

#[test]
fn handshake_carries_credentials_and_name() {
    let creds = iterm2_client::auth::Credentials { cookie: "c00k".to_string(), key: "k3y".to_string() };
    let h = handshake_headers(&creds, "my-app");
    let pairs: Vec<(&str, &str)> = h.iter().map(|(n, v)| (n.as_str(), v.as_str())).collect();
    assert_eq!(
        pairs,
        vec![
            ("Sec-WebSocket-Protocol", "api.iterm2.com"),
            ("Origin", "ws://localhost"),
            ("x-iterm2-library-version", "rust 0.1.0"),
            ("x-iterm2-cookie", "c00k"),
            ("x-iterm2-key", "k3y"),
            ("x-iterm2-advisory-name", "my-app"),
        ]
    );
    assert_eq!(MAX_FRAME_SIZE, 16 * 1024 * 1024);
    assert_eq!(MAX_MESSAGE_SIZE, 64 * 1024 * 1024);
}

#[test]
fn decoding_stops_after_a_hundred_failures_in_a_row() {
    let mut d = DecodeFailures::new();
    for _ in 0..99 {
        assert!(!d.record(false));
    }
    assert!(!d.record(true));
    for _ in 0..99 {
        assert!(!d.record(false));
    }
    assert!(d.record(false));
    assert!(d.record(false));
    assert!(!d.record(true));
}

#[test]
fn routing_of_incoming_messages() {
    let notif = proto::ServerOriginatedMessage {
        id: Some(4),
        submessage: Some(proto::server_originated_message::Submessage::Notification(
            proto::Notification::default(),
        )),
    };
    assert_eq!(route(&notif), Route::Notification);
    let reply = proto::ServerOriginatedMessage {
        id: Some(4),
        submessage: Some(proto::server_originated_message::Submessage::FocusResponse(
            proto::FocusResponse { notifications: vec![] },
        )),
    };
    assert_eq!(route(&reply), Route::Reply(4));
    let stray = proto::ServerOriginatedMessage { id: None, submessage: None };
    assert_eq!(route(&stray), Route::Discard);
}
