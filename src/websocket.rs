//! The WebSocket sink: its configuration, the connector it builds, and the
//! connection state machine that the run loop drives.

use vstd::prelude::*;
use vstd::arithmetic::power2::{pow2, lemma2_to64};
use crate::codec::Serializer;
use crate::event::Input;
use crate::scrape::Auth;
use crate::uri::{parse_uri, uri_parts};

verus! {

/// TLS options together with whether TLS is used at all.
#[derive(Debug, Clone, PartialEq, Eq)]
pub struct TlsEnableableConfig {
    pub enabled: Option<bool>,
    pub options: crate::scrape::TlsConfig,
}

/// Whether end-to-end acknowledgements are requested.
#[derive(Debug, Clone, Copy, PartialEq, Eq)]
pub struct AcknowledgementsConfig {
    pub enabled: Option<bool>,
}

/// Configuration of the WebSocket sink.
#[derive(Debug, Clone, PartialEq, Eq)]
pub struct WebSocketSinkConfig {
    /// The WebSocket URI to connect to.
    pub uri: String,
    pub tls: Option<TlsEnableableConfig>,
    /// How each log becomes one message.
    pub encoding: Serializer,
    /// Seconds between pings to the peer.
    pub ping_interval: Option<u64>,
    /// Seconds to wait for a pong before the connection counts as dead.
    pub ping_timeout: Option<u64>,
    pub acknowledgements: AcknowledgementsConfig,
    pub auth: Option<Auth>,
}

/// Why the sink could not be built.
#[derive(Debug, Clone, Copy, PartialEq, Eq)]
pub enum WebSocketError {
    /// The URI cannot be parsed.
    UriParse,
    /// The URI names no host.
    NoHostName,
}

/// Where and how to connect.
#[derive(Debug, Clone, PartialEq, Eq)]
pub struct WebSocketConnector {
    pub uri: String,
    pub host: String,
    pub port: u16,
    pub tls: bool,
    pub auth: Option<Auth>,
}

/// The keepalive settings of a connection.
#[derive(Debug, Clone, Copy, PartialEq, Eq)]
pub struct KeepAlive {
    pub ping_interval: Option<u64>,
    pub ping_timeout: Option<u64>,
}

/// A built sink: the connector, the serializer and the keepalive settings.
#[derive(Debug, Clone, PartialEq, Eq)]
pub struct WebSocketSink {
    pub connector: WebSocketConnector,
    pub encoding: Serializer,
    pub keepalive: KeepAlive,
}

impl Auth {
    pub fn duplicate(&self) -> (r: Auth)
        ensures
            r == *self,
    {
        match self {
            Auth::Basic { user, password } => Auth::Basic { user: user.clone(), password: password.clone() },
            Auth::Bearer { token } => Auth::Bearer { token: token.clone() },
        }
    }
}

pub open spec fn tls_enabled(tls: Option<TlsEnableableConfig>) -> bool {
    match tls {
        Some(t) => t.enabled == Some(true),
        None => false,
    }
}

/// The port used where the URI gives none: 443 for `wss`, else 80.
pub open spec fn default_port(scheme: Option<Seq<char>>) -> u16 {
    if scheme == Some("wss"@) {
        443
    } else {
        80
    }
}

impl WebSocketSinkConfig {
    /// Host and port of the connection, or why there is none: the URI must
    /// parse, name a host, and have the scheme `ws` or `wss`.
    pub open spec fn target(&self) -> Result<(Seq<char>, u16), WebSocketError> {
        match uri_parts(self.uri@) {
            None => Err(WebSocketError::UriParse),
            Some((scheme, _, host, port, _, _)) => match host {
                None => Err(WebSocketError::NoHostName),
                Some(h) => if scheme != Some("ws"@) && scheme != Some("wss"@) {
                    Err(WebSocketError::UriParse)
                } else { Ok((
                    h,
                    match port {
                        Some(p) => p,
                        None => default_port(scheme),
                    },
                )) },
            },
        }
    }

    /// An example configuration.
    pub fn generate_config() -> (r: WebSocketSinkConfig)
        ensures
            r.uri@ == "ws://127.0.0.1:9000/endpoint"@,
            r.tls is None,
            r.encoding == Serializer::Json,
            r.ping_interval is None,
            r.ping_timeout is None,
            r.acknowledgements.enabled is None,
            r.auth is None,
    {
        WebSocketSinkConfig {
            uri: String::from_str("ws://127.0.0.1:9000/endpoint"),
            tls: None,
            encoding: Serializer::Json,
            ping_interval: None,
            ping_timeout: None,
            acknowledgements: AcknowledgementsConfig { enabled: None },
            auth: None,
        }
    }

    /// Reads the URI into a connector: its host, and its port or the
    /// scheme's default one.
    pub fn build_connector(&self) -> (r: Result<WebSocketConnector, WebSocketError>)
        ensures
            match (r, self.target()) {
                (Ok(c), Ok((h, p))) => c.host@ == h && c.port == p && c.uri@ == self.uri@
                    && c.tls == tls_enabled(self.tls) && c.auth == self.auth,
                (Err(WebSocketError::UriParse), Err(WebSocketError::UriParse)) => true,
                (Err(WebSocketError::NoHostName), Err(WebSocketError::NoHostName)) => true,
                _ => false,
            },
    {
        let parts = match parse_uri(self.uri.as_str()) {
            Some(p) => p,
            None => return Err(WebSocketError::UriParse),
        };
        let host = match parts.host {
            Some(h) => h,
            None => return Err(WebSocketError::NoHostName),
        };
        let ws = String::from_str("ws");
        let wss = String::from_str("wss");
        proof {
            reveal_strlit("ws");
            reveal_strlit("wss");
        }
        let secure = match &parts.scheme {
            Some(s) => if *s == wss {
                true
            } else if *s == ws {
                false
            } else {
                return Err(WebSocketError::UriParse);
            },
            None => return Err(WebSocketError::UriParse),
        };
        let port = match parts.port {
            Some(p) => p,
            None => if secure {
                443
            } else {
                80
            },
        };
        let tls = match &self.tls {
            Some(t) => match t.enabled {
                Some(e) => e,
                None => false,
            },
            None => false,
        };
        let auth = match &self.auth {
            Some(a) => Some(a.duplicate()),
            None => None,
        };
        Ok(WebSocketConnector { uri: self.uri.clone(), host, port, tls, auth })
    }

    /// Builds the sink: the connector, the serializer and the keepalive
    /// settings.
    pub fn build(&self) -> (r: Result<WebSocketSink, WebSocketError>)
        ensures
            match r {
                Ok(s) => self.target() matches Ok((h, p)) && s.connector.host@ == h && s.connector.port == p
                    && s.connector.uri@ == self.uri@ && s.connector.tls == tls_enabled(self.tls)
                    && s.connector.auth == self.auth
                    && s.encoding == self.encoding && s.keepalive.ping_interval == self.ping_interval
                    && s.keepalive.ping_timeout == self.ping_timeout,
                Err(e) => self.target() == Err::<(Seq<char>, u16), WebSocketError>(e),
            },
    {
        let connector = match self.build_connector() {
            Ok(c) => c,
            Err(e) => return Err(e),
        };
        let encoding = match self.encoding {
            Serializer::Text => Serializer::Text,
            Serializer::Json => Serializer::Json,
        };
        Ok(WebSocketSink {
            connector,
            encoding,
            keepalive: KeepAlive { ping_interval: self.ping_interval, ping_timeout: self.ping_timeout },
        })
    }

    /// The sink takes logs only.
    pub fn input(&self) -> (r: Input)
        ensures
            r.log && !r.metric && !r.trace,
    {
        Input { log: true, metric: false, trace: false }
    }

    pub fn sink_type(&self) -> (r: &'static str)
        ensures
            r@ == "websocket"@,
    {
        "websocket"
    }

    pub fn acknowledgements(&self) -> (r: &AcknowledgementsConfig)
        ensures
            r == &self.acknowledgements,
    {
        &self.acknowledgements
    }
}

/// Where the connection stands.
#[derive(Debug, Clone, Copy, PartialEq, Eq)]
pub enum ConnState {
    Disconnected,
    Connecting,
    Open,
    Closing,
    Stopped,
}

/// The state of the sink's run loop. Times are in seconds.
#[derive(Debug, Clone, Copy, PartialEq, Eq)]
pub struct SinkState {
    pub conn: ConnState,
    /// Connection attempts that failed since the last success.
    pub failures: u32,
    /// When the unanswered ping was sent, if one is.
    pub awaiting_pong_since: Option<u64>,
    /// When the last ping was sent.
    pub last_ping_at: u64,
}

/// What the run loop observed.
#[derive(Debug, Clone, Copy, PartialEq, Eq)]
pub enum SinkEvent {
    /// The sink starts.
    Start,
    /// The handshake succeeded at time `now`.
    Connected { now: u64 },
    /// The handshake failed.
    ConnectFailed,
    /// The retry delay has passed.
    RetryDue,
    /// Time is `now`.
    Tick { now: u64 },
    PongReceived,
    /// Upstream has an event to send.
    EventReady,
    /// Writing to the transport failed; the event in flight is undelivered.
    WriteFailed,
    PeerClosed,
    Shutdown,
    /// The close handshake ended, or the shutdown deadline passed.
    Closed,
}

/// What the run loop does next.
#[derive(Debug, Clone, Copy, PartialEq, Eq)]
pub enum SinkAction {
    Nothing,
    /// Open a new connection.
    Connect,
    /// Wait this many seconds, then report `RetryDue`.
    RetryAfter { secs: u64 },
    SendPing,
    /// Encode and write the next upstream event.
    Write,
    /// Start the close handshake.
    Close,
    /// Release everything and end.
    Stop,
}

/// The longest wait between connection attempts, in seconds.
pub const MAX_RETRY_SECS: u64 = 60;

/// The wait before the next attempt after `failures` failed ones: doubling
/// from one second, capped at `MAX_RETRY_SECS`.
pub open spec fn retry_delay(failures: u32) -> u64 {
    if failures < 6 {
        pow2(failures as nat) as u64
    } else {
        MAX_RETRY_SECS
    }
}

pub fn retry_delay_secs(failures: u32) -> (r: u64)
    ensures
        r == retry_delay(failures),
        1 <= r <= MAX_RETRY_SECS,
{
    proof {
        lemma2_to64();
    }
    if failures == 0 {
        1
    } else if failures == 1 {
        2
    } else if failures == 2 {
        4
    } else if failures == 3 {
        8
    } else if failures == 4 {
        16
    } else if failures == 5 {
        32
    } else {
        MAX_RETRY_SECS
    }
}

pub open spec fn lost(s: SinkState) -> (SinkState, SinkAction) {
    (
        SinkState { conn: ConnState::Disconnected, awaiting_pong_since: None, ..s },
        SinkAction::RetryAfter { secs: retry_delay(s.failures) },
    )
}

pub open spec fn unchanged(s: SinkState) -> (SinkState, SinkAction) {
    (s, SinkAction::Nothing)
}

/// Whether a ping sent at `since` has gone unanswered for longer than the
/// timeout at time `now`.
pub open spec fn pong_overdue(k: KeepAlive, since: u64, now: u64) -> bool {
    match k.ping_timeout {
        Some(to) => now > since + to,
        None => false,
    }
}

/// Whether a ping is due at `now`.
pub open spec fn ping_due(k: KeepAlive, s: SinkState, now: u64) -> bool {
    match k.ping_interval {
        Some(iv) => s.awaiting_pong_since is None && now >= s.last_ping_at + iv,
        None => false,
    }
}

/// The next state and action of the connection state machine.
pub open spec fn next(k: KeepAlive, s: SinkState, e: SinkEvent) -> (SinkState, SinkAction) {
    match s.conn {
        ConnState::Stopped => unchanged(s),
        _ => match e {
            SinkEvent::Shutdown => match s.conn {
                ConnState::Open => (SinkState { conn: ConnState::Closing, ..s }, SinkAction::Close),
                ConnState::Closing => unchanged(s),
                _ => (SinkState { conn: ConnState::Stopped, ..s }, SinkAction::Stop),
            },
            SinkEvent::Closed => match s.conn {
                ConnState::Closing => (SinkState { conn: ConnState::Stopped, ..s }, SinkAction::Stop),
                _ => unchanged(s),
            },
            SinkEvent::Start | SinkEvent::RetryDue => match s.conn {
                ConnState::Disconnected => (SinkState { conn: ConnState::Connecting, ..s }, SinkAction::Connect),
                _ => unchanged(s),
            },
            SinkEvent::Connected { now } => match s.conn {
                ConnState::Connecting => (
                    SinkState { conn: ConnState::Open, failures: 0, awaiting_pong_since: None, last_ping_at: now },
                    SinkAction::Nothing,
                ),
                _ => unchanged(s),
            },
            SinkEvent::ConnectFailed => match s.conn {
                ConnState::Connecting => (
                    SinkState {
                        conn: ConnState::Disconnected,
                        failures: if s.failures == u32::MAX {
                            s.failures
                        } else {
                            (s.failures + 1) as u32
                        },
                        ..s
                    },
                    SinkAction::RetryAfter { secs: retry_delay(s.failures) },
                ),
                _ => unchanged(s),
            },
            SinkEvent::Tick { now } => match s.conn {
                ConnState::Open => match s.awaiting_pong_since {
                    Some(since) if pong_overdue(k, since, now) => lost(s),
                    _ => if ping_due(k, s, now) {
                        (SinkState { awaiting_pong_since: Some(now), last_ping_at: now, ..s }, SinkAction::SendPing)
                    } else {
                        unchanged(s)
                    },
                },
                _ => unchanged(s),
            },
            SinkEvent::PongReceived => match s.conn {
                ConnState::Open => (SinkState { awaiting_pong_since: None, ..s }, SinkAction::Nothing),
                _ => unchanged(s),
            },
            SinkEvent::EventReady => match s.conn {
                ConnState::Open => (s, SinkAction::Write),
                _ => unchanged(s),
            },
            SinkEvent::WriteFailed | SinkEvent::PeerClosed => match s.conn {
                ConnState::Open => lost(s),
                _ => unchanged(s),
            },
        },
    }
}

impl SinkState {
    /// The state before the first connection.
    pub fn new() -> (r: SinkState)
        ensures
            r == (SinkState { conn: ConnState::Disconnected, failures: 0, awaiting_pong_since: None, last_ping_at: 0 }),
    {
        SinkState { conn: ConnState::Disconnected, failures: 0, awaiting_pong_since: None, last_ping_at: 0 }
    }
}

fn copy_conn(c: &ConnState) -> (r: ConnState)
    ensures
        r == *c,
{
    match c {
        ConnState::Disconnected => ConnState::Disconnected,
        ConnState::Connecting => ConnState::Connecting,
        ConnState::Open => ConnState::Open,
        ConnState::Closing => ConnState::Closing,
        ConnState::Stopped => ConnState::Stopped,
    }
}

fn keep(s: &SinkState) -> (r: (SinkState, SinkAction))
    ensures
        r == unchanged(*s),
{
    (
        SinkState {
            conn: copy_conn(&s.conn),
            failures: s.failures,
            awaiting_pong_since: s.awaiting_pong_since,
            last_ping_at: s.last_ping_at,
        },
        SinkAction::Nothing,
    )
}

fn with_conn(s: &SinkState, c: ConnState) -> (r: SinkState)
    ensures
        r == (SinkState { conn: c, ..*s }),
{
    SinkState { conn: c, failures: s.failures, awaiting_pong_since: s.awaiting_pong_since, last_ping_at: s.last_ping_at }
}

/// One step of the connection state machine.
pub fn step(k: &KeepAlive, s: &SinkState, e: &SinkEvent) -> (r: (SinkState, SinkAction))
    ensures
        r == next(*k, *s, *e),
{
    if let ConnState::Stopped = s.conn {
        return keep(s);
    }
    match e {
        SinkEvent::Shutdown => match s.conn {
            ConnState::Open => (with_conn(s, ConnState::Closing), SinkAction::Close),
            ConnState::Closing => keep(s),
            _ => (with_conn(s, ConnState::Stopped), SinkAction::Stop),
        },
        SinkEvent::Closed => match s.conn {
            ConnState::Closing => (with_conn(s, ConnState::Stopped), SinkAction::Stop),
            _ => keep(s),
        },
        SinkEvent::Start | SinkEvent::RetryDue => match s.conn {
            ConnState::Disconnected => (with_conn(s, ConnState::Connecting), SinkAction::Connect),
            _ => keep(s),
        },
        SinkEvent::Connected { now } => match s.conn {
            ConnState::Connecting => (
                SinkState { conn: ConnState::Open, failures: 0, awaiting_pong_since: None, last_ping_at: *now },
                SinkAction::Nothing,
            ),
            _ => keep(s),
        },
        SinkEvent::ConnectFailed => match s.conn {
            ConnState::Connecting => {
                let delay = retry_delay_secs(s.failures);
                let failures = if s.failures == u32::MAX {
                    s.failures
                } else {
                    s.failures + 1
                };
                (
                    SinkState {
                        conn: ConnState::Disconnected,
                        failures,
                        awaiting_pong_since: s.awaiting_pong_since,
                        last_ping_at: s.last_ping_at,
                    },
                    SinkAction::RetryAfter { secs: delay },
                )
            },
            _ => keep(s),
        },
        SinkEvent::Tick { now } => match s.conn {
            ConnState::Open => {
                let now = *now;
                let overdue = match s.awaiting_pong_since {
                    Some(since) => match k.ping_timeout {
                        Some(to) => now > since && now - since > to,
                        None => false,
                    },
                    None => false,
                };
                if overdue {
                    let delay = retry_delay_secs(s.failures);
                    return (
                        SinkState {
                            conn: ConnState::Disconnected,
                            failures: s.failures,
                            awaiting_pong_since: None,
                            last_ping_at: s.last_ping_at,
                        },
                        SinkAction::RetryAfter { secs: delay },
                    );
                }
                let due = match k.ping_interval {
                    Some(iv) => s.awaiting_pong_since.is_none() && now >= s.last_ping_at && now - s.last_ping_at
                        >= iv,
                    None => false,
                };
                if due {
                    (
                        SinkState {
                            conn: ConnState::Open,
                            failures: s.failures,
                            awaiting_pong_since: Some(now),
                            last_ping_at: now,
                        },
                        SinkAction::SendPing,
                    )
                } else {
                    keep(s)
                }
            },
            _ => keep(s),
        },
        SinkEvent::PongReceived => match s.conn {
            ConnState::Open => (
                SinkState {
                    conn: ConnState::Open,
                    failures: s.failures,
                    awaiting_pong_since: None,
                    last_ping_at: s.last_ping_at,
                },
                SinkAction::Nothing,
            ),
            _ => keep(s),
        },
        SinkEvent::EventReady => match s.conn {
            ConnState::Open => (keep(s).0, SinkAction::Write),
            _ => keep(s),
        },
        SinkEvent::WriteFailed | SinkEvent::PeerClosed => match s.conn {
            ConnState::Open => {
                let delay = retry_delay_secs(s.failures);
                (
                    SinkState {
                        conn: ConnState::Disconnected,
                        failures: s.failures,
                        awaiting_pong_since: None,
                        last_ping_at: s.last_ping_at,
                    },
                    SinkAction::RetryAfter { secs: delay },
                )
            },
            _ => keep(s),
        },
    }
}

/// Writes happen only over an open connection, which stays open; every
/// reconnect waits a bounded, non-zero delay first; and a stopped sink stays
/// stopped and does nothing.
pub proof fn lemma_sink_safety(k: KeepAlive, s: SinkState, e: SinkEvent)
    ensures
        next(k, s, e).1 == SinkAction::Write ==> s.conn == ConnState::Open && next(k, s, e).0.conn == ConnState::Open,
        next(k, s, e).1 == SinkAction::Connect ==> s.conn == ConnState::Disconnected,
        next(k, s, e).1 matches SinkAction::RetryAfter { secs } ==> 1 <= secs <= MAX_RETRY_SECS
            && next(k, s, e).0.conn == ConnState::Disconnected,
        s.conn == ConnState::Stopped ==> next(k, s, e) == unchanged(s),
{
    lemma2_to64();
}

/// A peer that leaves a ping unanswered for longer than the pong timeout
/// gets the connection dropped; after the retry delay the sink connects
/// again, and once connected it writes the events that wait upstream. The
/// sink never stops on its own along the way.
pub proof fn lemma_pong_timeout_reconnects(k: KeepAlive, s: SinkState, now: u64, later: u64)
    requires
        s.conn == ConnState::Open,
        s.awaiting_pong_since matches Some(since) && pong_overdue(k, since, now),
    ensures
        ({
            let (s1, a1) = next(k, s, SinkEvent::Tick { now });
            let (s2, a2) = next(k, s1, SinkEvent::RetryDue);
            let (s3, a3) = next(k, s2, SinkEvent::Connected { now: later });
            let (s4, a4) = next(k, s3, SinkEvent::EventReady);
            &&& s1.conn == ConnState::Disconnected
            &&& a1 matches SinkAction::RetryAfter { secs } && 1 <= secs <= MAX_RETRY_SECS
            &&& s2.conn == ConnState::Connecting && a2 == SinkAction::Connect
            &&& s3.conn == ConnState::Open && a3 == SinkAction::Nothing
            &&& s4.conn == ConnState::Open && a4 == SinkAction::Write
        }),
{
    lemma2_to64();
}

} // verus!
