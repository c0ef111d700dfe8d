use scrape_io::codec::Serializer;
use scrape_io::websocket::{
    retry_delay_secs, step, ConnState, KeepAlive, SinkAction, SinkEvent, SinkState, WebSocketError,
    WebSocketSinkConfig,
};

fn config_with_uri(uri: &str) -> WebSocketSinkConfig {
    let mut c = WebSocketSinkConfig::generate_config();
    c.uri = uri.to_string();
    c
}

#[test]
fn generate_config() {
    let c = WebSocketSinkConfig::generate_config();
    assert_eq!(c.uri, "ws://127.0.0.1:9000/endpoint");
    assert_eq!(c.encoding, Serializer::Json);
    assert_eq!(c.ping_interval, None);
    assert_eq!(c.ping_timeout, None);
    assert!(c.tls.is_none());
    assert!(c.auth.is_none());
    let conn = c.build_connector().expect("example config builds");
    assert_eq!(conn.host, "127.0.0.1");
    assert_eq!(conn.port, 9000);
    assert!(!conn.tls);
    assert_eq!(c.sink_type(), "websocket");
    assert!(c.input().log && !c.input().metric && !c.input().trace);
}

#[test]
fn connector_default_ports() {
    let c = config_with_uri("wss://example.com/feed").build_connector().unwrap();
    assert_eq!(c.host, "example.com");
    assert_eq!(c.port, 443);
    let c = config_with_uri("ws://example.com/feed").build_connector().unwrap();
    assert_eq!(c.port, 80);
    let c = config_with_uri("ws://example.com:8081/feed").build_connector().unwrap();
    assert_eq!(c.port, 8081);
}

#[test]
fn connector_errors() {
    assert_eq!(config_with_uri("ws://exa mple.com/").build_connector().unwrap_err(), WebSocketError::UriParse);
    assert_eq!(config_with_uri("/only/a/path").build_connector().unwrap_err(), WebSocketError::NoHostName);
    assert_eq!(config_with_uri("http://example.com/feed").build_connector().unwrap_err(), WebSocketError::UriParse);
}

#[test]
fn build_keeps_keepalive_settings() {
    let mut c = WebSocketSinkConfig::generate_config();
    c.ping_interval = Some(10);
    c.ping_timeout = Some(3);
    let s = c.build().unwrap();
    assert_eq!(s.keepalive, KeepAlive { ping_interval: Some(10), ping_timeout: Some(3) });
    assert_eq!(s.encoding, Serializer::Json);
    assert_eq!(s.connector.uri, c.uri);
    assert!(!s.connector.tls);
}

#[test]
fn retry_delays_double_and_cap() {
    let got: Vec<u64> = (0..9).map(retry_delay_secs).collect();
    assert_eq!(got, vec![1, 2, 4, 8, 16, 32, 60, 60, 60]);
    assert_eq!(retry_delay_secs(u32::MAX), 60);
}

#[test]
fn pong_timeout_reconnects_and_resumes() {
    let k = KeepAlive { ping_interval: Some(5), ping_timeout: Some(2) };
    let s = SinkState::new();
    let (s, a) = step(&k, &s, &SinkEvent::Start);
    assert_eq!((s.conn, a), (ConnState::Connecting, SinkAction::Connect));
    let (s, a) = step(&k, &s, &SinkEvent::Connected { now: 100 });
    assert_eq!((s.conn, a), (ConnState::Open, SinkAction::Nothing));
    let (s, a) = step(&k, &s, &SinkEvent::Tick { now: 105 });
    assert_eq!(a, SinkAction::SendPing);
    assert_eq!(s.awaiting_pong_since, Some(105));
    // no pong yet, but within the timeout
    let (s, a) = step(&k, &s, &SinkEvent::Tick { now: 107 });
    assert_eq!((s.conn, a), (ConnState::Open, SinkAction::Nothing));
    // longer than the timeout: the connection is dead
    let (s, a) = step(&k, &s, &SinkEvent::Tick { now: 108 });
    assert_eq!(s.conn, ConnState::Disconnected);
    assert_eq!(a, SinkAction::RetryAfter { secs: 1 });
    // queued events wait while disconnected
    let (s, a) = step(&k, &s, &SinkEvent::EventReady);
    assert_eq!((s.conn, a), (ConnState::Disconnected, SinkAction::Nothing));
    let (s, a) = step(&k, &s, &SinkEvent::RetryDue);
    assert_eq!((s.conn, a), (ConnState::Connecting, SinkAction::Connect));
    let (s, a) = step(&k, &s, &SinkEvent::Connected { now: 110 });
    assert_eq!((s.conn, a), (ConnState::Open, SinkAction::Nothing));
    let (s, a) = step(&k, &s, &SinkEvent::EventReady);
    assert_eq!((s.conn, a), (ConnState::Open, SinkAction::Write));
}

#[test]
fn pong_keeps_connection_open() {
    let k = KeepAlive { ping_interval: Some(5), ping_timeout: Some(2) };
    let s = SinkState { conn: ConnState::Open, failures: 0, awaiting_pong_since: Some(10), last_ping_at: 10 };
    let (s, a) = step(&k, &s, &SinkEvent::PongReceived);
    assert_eq!((s.awaiting_pong_since, a), (None, SinkAction::Nothing));
    let (s, a) = step(&k, &s, &SinkEvent::Tick { now: 30 });
    assert_eq!((s.conn, a), (ConnState::Open, SinkAction::SendPing));
}

#[test]
fn failed_connects_back_off() {
    let k = KeepAlive { ping_interval: None, ping_timeout: None };
    let mut s = SinkState::new();
    let mut delays = Vec::new();
    for _ in 0..4 {
        let (t, _) = step(&k, &s, &SinkEvent::RetryDue);
        let (t, a) = step(&k, &t, &SinkEvent::ConnectFailed);
        delays.push(a);
        s = t;
    }
    assert_eq!(
        delays,
        vec![
            SinkAction::RetryAfter { secs: 1 },
            SinkAction::RetryAfter { secs: 2 },
            SinkAction::RetryAfter { secs: 4 },
            SinkAction::RetryAfter { secs: 8 }
        ]
    );
    assert_eq!(s.failures, 4);
}

#[test]
fn write_failure_and_shutdown() {
    let k = KeepAlive { ping_interval: None, ping_timeout: None };
    let open = SinkState { conn: ConnState::Open, failures: 0, awaiting_pong_since: None, last_ping_at: 0 };
    let (s, a) = step(&k, &open, &SinkEvent::WriteFailed);
    assert_eq!((s.conn, a), (ConnState::Disconnected, SinkAction::RetryAfter { secs: 1 }));
    let (s, a) = step(&k, &open, &SinkEvent::PeerClosed);
    assert_eq!((s.conn, a), (ConnState::Disconnected, SinkAction::RetryAfter { secs: 1 }));
    let (s, a) = step(&k, &open, &SinkEvent::Shutdown);
    assert_eq!((s.conn, a), (ConnState::Closing, SinkAction::Close));
    let (s, a) = step(&k, &s, &SinkEvent::Closed);
    assert_eq!((s.conn, a), (ConnState::Stopped, SinkAction::Stop));
    let (s, a) = step(&k, &s, &SinkEvent::Start);
    assert_eq!((s.conn, a), (ConnState::Stopped, SinkAction::Nothing));
}
