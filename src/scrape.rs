//! The HTTP scrape source: its configuration, the request it issues, and
//! what it does with a response body.

use vstd::prelude::*;
use vstd::string::*;
use vstd::utf8::valid_utf8;
use crate::codec::{Deserializer, decode, decoded};
use crate::event::{Event, EventView, Input, events_view};
use crate::framing::Framing;
use crate::query::{
    config_view, merge_query, merged, pairs_view, parse_query, query_pairs, query_text, write_query,
};
use crate::uri::{parse_uri, uri_parts};

verus! {

/// The source-type marker of events that this source emits.
pub open spec fn source_name() -> Seq<char> {
    seq!['h', 't', 't', 'p', '_', 's', 'c', 'r', 'a', 'p', 'e']
}

/// The scrape interval used when none is configured, in seconds.
pub const DEFAULT_SCRAPE_INTERVAL_SECS: u64 = 15;

/// HTTP authentication.
#[derive(Debug, Clone, PartialEq, Eq)]
pub enum Auth {
    Basic { user: String, password: String },
    Bearer { token: String },
}

/// TLS options; files are read when the client is built.
#[derive(Debug, Clone, PartialEq, Eq)]
pub struct TlsConfig {
    pub verify_certificate: Option<bool>,
    pub verify_hostname: Option<bool>,
    pub ca_file: Option<String>,
    pub crt_file: Option<String>,
    pub key_file: Option<String>,
    pub key_pass: Option<String>,
}

/// Configuration of the scrape source.
#[derive(Debug, Clone, PartialEq, Eq)]
pub struct HttpScrapeConfig {
    /// Endpoint to scrape events from.
    pub endpoint: String,
    /// The interval between scrapes, in seconds.
    pub scrape_interval_secs: u64,
    /// Parameters appended to those of the endpoint's own query, each key
    /// with its values in order.
    pub query: Option<Vec<(String, Vec<String>)>>,
    /// How a frame becomes events.
    pub decoding: Deserializer,
    /// How a response body is cut into frames.
    pub framing: Framing,
    /// Headers sent with each request.
    pub headers: Option<Vec<(String, String)>>,
    pub tls: Option<TlsConfig>,
    pub auth: Option<Auth>,
}

/// Why the source could not be built.
#[derive(Debug, Clone, Copy, PartialEq, Eq)]
pub enum BuildError {
    /// The endpoint is not a URI with a scheme and an authority.
    InvalidUri,
    /// The scrape interval is zero.
    ZeroInterval,
}

/// What each tick of the source requests.
#[derive(Debug, Clone, PartialEq, Eq)]
pub struct ScrapeTarget {
    /// The full request URI, query included.
    pub url: String,
    pub interval_secs: u64,
    /// The value of the `Accept` header.
    pub content_type: String,
    /// The headers of each request, `Accept` included.
    pub headers: Vec<(String, String)>,
}

/// The media type that a deserializer and framing ask for.
pub open spec fn content_type_of(d: Deserializer, f: Framing) -> Seq<char> {
    match d {
        Deserializer::Bytes => "text/plain"@,
        Deserializer::Json => match f {
            Framing::NewlineDelimited { .. } => "application/x-ndjson"@,
            _ => "application/json"@,
        },
    }
}

/// The media type that a deserializer and framing ask for.
pub fn content_type(d: &Deserializer, f: &Framing) -> (r: &'static str)
    ensures
        r@ == content_type_of(*d, *f),
{
    match d {
        Deserializer::Bytes => "text/plain",
        Deserializer::Json => match f {
            Framing::NewlineDelimited { .. } => "application/x-ndjson",
            _ => "application/json",
        },
    }
}

/// The request URI built from the endpoint's parts and the merged query:
/// `scheme://authority path`, then `?query` where the query has pairs.
pub open spec fn request_url(
    scheme: Seq<char>,
    authority: Seq<char>,
    path: Seq<char>,
    q: Seq<(Seq<char>, Seq<char>)>,
) -> Seq<char> {
    scheme + "://"@ + authority + path + if q.len() == 0 {
        seq![]
    } else {
        seq!['?'] + query_text(q)
    }
}

/// The configured parameters as a list (none when unset).
pub open spec fn configured_query(q: Option<Vec<(String, Vec<String>)>>) -> Seq<(Seq<char>, Seq<Seq<char>>)> {
    match q {
        Some(v) => config_view(v@),
        None => seq![],
    }
}

/// The endpoint's own query pairs.
pub open spec fn raw_pairs(q: Option<Seq<char>>) -> Seq<(Seq<char>, Seq<char>)> {
    match q {
        Some(t) => query_pairs(t),
        None => seq![],
    }
}

impl HttpScrapeConfig {
    /// The outcome of building the source from this configuration.
    pub open spec fn built(&self) -> Result<(Seq<char>, u64, Seq<char>), BuildError> {
        match uri_parts(self.endpoint@) {
            Some((Some(scheme), Some(authority), _, _, path, q)) => if self.scrape_interval_secs == 0 {
                Err(BuildError::ZeroInterval)
            } else {
                Ok((
                    request_url(scheme, authority, path, merged(raw_pairs(q), configured_query(self.query))),
                    self.scrape_interval_secs,
                    content_type_of(self.decoding, self.framing),
                ))
            },
            _ => Err(BuildError::InvalidUri),
        }
    }

    /// Builds the request target: the endpoint with the configured query
    /// merged into its own, the interval, and the media type to accept.
    pub fn build(&self) -> (r: Result<ScrapeTarget, BuildError>)
        ensures
            match (r, self.built()) {
                (Ok(t), Ok((url, secs, ct))) => t.url@ == url && t.interval_secs == secs && t.content_type@ == ct
                    && pairs_view(t.headers@) == request_headers_of(*self),
                (Err(BuildError::InvalidUri), Err(BuildError::InvalidUri)) => true,
                (Err(BuildError::ZeroInterval), Err(BuildError::ZeroInterval)) => true,
                _ => false,
            },
    {
        let parts = match parse_uri(self.endpoint.as_str()) {
            Some(p) => p,
            None => return Err(BuildError::InvalidUri),
        };
        let scheme = match &parts.scheme {
            Some(s) => s,
            None => return Err(BuildError::InvalidUri),
        };
        let authority = match &parts.authority {
            Some(a) => a,
            None => return Err(BuildError::InvalidUri),
        };
        if self.scrape_interval_secs == 0 {
            return Err(BuildError::ZeroInterval);
        }
        let raw = match &parts.query {
            Some(t) => parse_query(t.as_str()),
            None => Vec::new(),
        };
        assert(pairs_view(raw@) == raw_pairs(crate::event::opt_str_view(parts.query))) by {
            if parts.query is None {
                assert(pairs_view(raw@) =~= Seq::<(Seq<char>, Seq<char>)>::empty());
            }
        }
        let empty: Vec<(String, Vec<String>)> = Vec::new();
        let cfg = match &self.query {
            Some(q) => q,
            None => &empty,
        };
        assert(config_view(cfg@) == configured_query(self.query)) by {
            if self.query is None {
                assert(config_view(cfg@) =~= Seq::<(Seq<char>, Seq<Seq<char>>)>::empty());
            }
        }
        let pairs = merge_query(&raw, cfg);
        let mut url = scheme.clone();
        proof {
            reveal_strlit("://");
            reveal_strlit("?");
        }
        url.append("://");
        url.append(authority.as_str());
        url.append(parts.path.as_str());
        if pairs.len() > 0 {
            url.append("?");
            let q = write_query(&pairs);
            url.append(q.as_str());
        }
        assert(url@ =~= request_url(scheme@, authority@, parts.path@, pairs_view(pairs@)));
        let ct = content_type(&self.decoding, &self.framing);
        Ok(ScrapeTarget {
            url,
            interval_secs: self.scrape_interval_secs,
            content_type: String::from_str(ct),
            headers: self.request_headers(),
        })
    }
}

/// The headers of each request: the configured ones, then `Accept` with the
/// media type that the decoding asks for.
pub open spec fn request_headers_of(c: HttpScrapeConfig) -> Seq<(Seq<char>, Seq<char>)> {
    (match c.headers {
        Some(h) => pairs_view(h@),
        None => seq![],
    }) + seq![("Accept"@, content_type_of(c.decoding, c.framing))]
}

impl HttpScrapeConfig {
    /// The headers sent with each request.
    pub fn request_headers(&self) -> (r: Vec<(String, String)>)
        ensures
            pairs_view(r@) == request_headers_of(*self),
    {
        let mut out: Vec<(String, String)> = Vec::new();
        match &self.headers {
            Some(h) => {
                let mut i: usize = 0;
                while i < h.len()
                    invariant
                        i <= h@.len(),
                        pairs_view(out@) == pairs_view(h@).subrange(0, i as int),
                    decreases h@.len() - i,
                {
                    let k = h[i].0.clone();
                    let v = h[i].1.clone();
                    let ghost prev = out@;
                    out.push((k, v));
                    assert(pairs_view(out@) =~= pairs_view(prev) + seq![(h@[i as int].0@, h@[i as int].1@)]);
                    assert(pairs_view(out@) =~= pairs_view(h@).subrange(0, i + 1));
                    i = i + 1;
                }
                assert(pairs_view(h@).subrange(0, i as int) =~= pairs_view(h@));
            },
            None => {
                assert(pairs_view(out@) =~= Seq::<(Seq<char>, Seq<char>)>::empty());
            },
        }
        let ghost prev = out@;
        let ct = content_type(&self.decoding, &self.framing);
        out.push((String::from_str("Accept"), String::from_str(ct)));
        assert(pairs_view(out@) =~= pairs_view(prev) + seq![("Accept"@, content_type_of(self.decoding, self.framing))]);
        out
    }

    /// The source emits logs only: both deserializers produce logs.
    pub fn outputs(&self) -> (r: Input)
        ensures
            r.log && !r.metric && !r.trace,
    {
        Input { log: true, metric: false, trace: false }
    }

    pub fn source_type(&self) -> (r: &'static str)
        ensures
            r@ == source_name(),
    {
        proof {
            reveal_strlit("http_scrape");
        }
        assert("http_scrape"@ =~= source_name());
        "http_scrape"
    }

    /// The source does not take part in end-to-end acknowledgements.
    pub fn can_acknowledge(&self) -> (r: bool)
        ensures
            !r,
    {
        false
    }
}

impl Default for HttpScrapeConfig {
    fn default() -> (r: HttpScrapeConfig)
        ensures
            r.endpoint@ == "http://localhost:9898/logs"@,
            r.scrape_interval_secs == DEFAULT_SCRAPE_INTERVAL_SECS,
            r.query is None,
            r.decoding == Deserializer::Bytes,
            r.framing == Framing::MessageBased,
            r.headers is None,
            r.tls is None,
            r.auth is None,
    {
        HttpScrapeConfig {
            endpoint: String::from_str("http://localhost:9898/logs"),
            scrape_interval_secs: DEFAULT_SCRAPE_INTERVAL_SECS,
            query: None,
            decoding: Deserializer::Bytes,
            framing: Framing::MessageBased,
            headers: None,
            tls: None,
            auth: None,
        }
    }
}

/// Relies on `chrono::Utc::now`, read as milliseconds since the epoch.
#[verifier::external_body]
fn now_millis() -> (r: i64) {
    chrono::Utc::now().timestamp_millis()
}

/// The bytes of the text that `String::from_utf8_lossy` reads from `b`.
pub uninterp spec fn utf8_lossy(b: Seq<u8>) -> Seq<u8>;

/// Relies on `String::from_utf8_lossy`: invalid sequences become U+FFFD,
/// and valid UTF-8 comes back unchanged.
#[verifier::external_body]
fn lossy_text(b: &Vec<u8>) -> (r: Vec<u8>)
    ensures
        r@ == utf8_lossy(b@),
        valid_utf8(b@) ==> r@ == b@,
{
    String::from_utf8_lossy(b).as_bytes().to_vec()
}

/// An event after enrichment at time `now`: a log gets the source-type
/// marker and `now` as its timestamp; metrics and traces get their
/// source-type marker. Markers and timestamps already present are replaced.
pub open spec fn enriched(e: EventView, now: i64) -> EventView {
    match e {
        EventView::Log { fields, .. } => EventView::Log {
            fields,
            source_type: Some(source_name()),
            timestamp: Some(now),
        },
        EventView::Metric { name, value, .. } => EventView::Metric { name, value, source_type: Some(source_name()) },
        EventView::Trace { fields, .. } => EventView::Trace { fields, source_type: Some(source_name()) },
    }
}

pub open spec fn enriched_all(es: Seq<EventView>, now: i64) -> Seq<EventView> {
    es.map_values(|e: EventView| enriched(e, now))
}

fn source_name_string() -> (r: String)
    ensures
        r@ == source_name(),
{
    proof {
        reveal_strlit("http_scrape");
    }
    let r = String::from_str("http_scrape");
    assert(r@ =~= source_name());
    r
}

fn enrich_event(e: Event, now: i64) -> (r: Event)
    ensures
        r@ == enriched(e@, now),
{
    match e {
        Event::Log(mut l) => {
            l.source_type = Some(source_name_string());
            l.timestamp = Some(now);
            Event::Log(l)
        },
        Event::Metric(mut m) => {
            m.source_type = Some(source_name_string());
            Event::Metric(m)
        },
        Event::Trace(mut t) => {
            t.source_type = Some(source_name_string());
            Event::Trace(t)
        },
    }
}

/// What the source does with the response body of one tick.
#[derive(Debug, Clone, Copy, PartialEq, Eq)]
pub struct HttpScrapeContext {
    pub framing: Framing,
    pub decoding: Deserializer,
}

impl HttpScrapeContext {
    /// Decodes the events of a buffer; see `codec::decode`.
    pub fn decode_events(&self, buf: &Vec<u8>) -> (r: Vec<Event>)
        ensures
            events_view(r@) == decoded(self.framing, self.decoding, buf@),
    {
        decode(&self.framing, &self.decoding, buf)
    }

    /// Enriches each event as of time `now`, keeping their order.
    pub fn enrich_events_at(&self, events: &mut Vec<Event>, now: i64)
        ensures
            events_view(final(events)@) == enriched_all(events_view(old(events)@), now),
    {
        let ghost before = events_view(events@);
        let mut i: usize = 0;
        while i < events.len()
            invariant
                i <= events@.len(),
                before.len() == events@.len(),
                before == events_view(old(events)@),
                forall|j: int| 0 <= j < i ==> #[trigger] events@[j]@ == enriched(before[j], now),
                forall|j: int| i <= j < events@.len() ==> #[trigger] events@[j]@ == before[j],
            decreases events@.len() - i,
        {
            let mut slot = Event::Metric(crate::event::Metric { name: String::new(), value: 0, source_type: None });
            events.set_and_swap(i, &mut slot);
            let e = enrich_event(slot, now);
            events.set(i, e);
            i = i + 1;
        }
        assert(events_view(events@) =~= enriched_all(before, now));
    }

    /// Enriches each event with the current time.
    pub fn enrich_events(&self, events: &mut Vec<Event>)
        ensures
            exists|now: i64| events_view(final(events)@) == enriched_all(events_view(old(events)@), now),
    {
        let now = now_millis();
        self.enrich_events_at(events, now);
    }

    /// The events of a response body received at time `now`: the body is
    /// read as UTF-8 text, decoded, and enriched.
    pub fn on_response_at(&self, body: &Vec<u8>, now: i64) -> (r: Vec<Event>)
        ensures
            events_view(r@) == enriched_all(decoded(self.framing, self.decoding, utf8_lossy(body@)), now),
            valid_utf8(body@) ==> events_view(r@) == enriched_all(decoded(self.framing, self.decoding, body@), now),
    {
        let text = lossy_text(body);
        let mut events = self.decode_events(&text);
        self.enrich_events_at(&mut events, now);
        events
    }

    /// The events of a response body, enriched with the current time.
    pub fn on_response(&self, body: &Vec<u8>) -> (r: Option<Vec<Event>>)
        ensures
            r matches Some(v) && exists|now: i64|
                events_view(v@) == enriched_all(decoded(self.framing, self.decoding, utf8_lossy(body@)), now),
            valid_utf8(body@) ==> (r matches Some(v) && exists|now: i64|
                events_view(v@) == enriched_all(decoded(self.framing, self.decoding, body@), now)),
    {
        let now = now_millis();
        let v = self.on_response_at(body, now);
        Some(v)
    }
}

/// Every enriched event carries the non-empty source-type marker, and every
/// enriched log carries the time of the enrichment as its timestamp,
/// whatever the events held before.
pub proof fn lemma_enriched_events_marked(es: Seq<EventView>, now: i64)
    ensures
        source_name().len() > 0,
        enriched_all(es, now).len() == es.len(),
        forall|i: int| 0 <= i < es.len() ==> {
            let e = #[trigger] enriched_all(es, now)[i];
            match e {
                EventView::Log { source_type, timestamp, .. } => source_type == Some(source_name())
                    && timestamp == Some(now),
                EventView::Metric { source_type, .. } => source_type == Some(source_name()),
                EventView::Trace { source_type, .. } => source_type == Some(source_name()),
            }
        },
{
}

} // verus!
