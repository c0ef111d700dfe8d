use scrape_io::codec::{decode, deserialize, encode, DecodeError, Deserializer, Serializer};
use scrape_io::event::{Event, LogEvent};
use scrape_io::framing::Framing;
use scrape_io::lifecycle::{scrape_step, shutdown_outcome, ScrapeAction, ScrapeEvent, ScrapePhase, ShutdownOutcome};
use scrape_io::query::{merge_query, parse_query, write_query};
use scrape_io::scrape::{content_type, BuildError, HttpScrapeConfig, HttpScrapeContext};

fn s(x: &str) -> String {
    x.to_string()
}

fn log_of(e: &Event) -> &LogEvent {
    match e {
        Event::Log(l) => l,
        _ => panic!("expected a log"),
    }
}

fn config(endpoint: &str, decoding: Deserializer, framing: Framing) -> HttpScrapeConfig {
    HttpScrapeConfig {
        endpoint: endpoint.to_string(),
        scrape_interval_secs: 1,
        query: None,
        decoding,
        framing,
        headers: None,
        tls: None,
        auth: None,
    }
}

#[test]
fn http_scrape_generate_config() {
    let c = HttpScrapeConfig::default();
    assert_eq!(c.endpoint, "http://localhost:9898/logs");
    assert_eq!(c.scrape_interval_secs, 15);
    assert_eq!(c.decoding, Deserializer::Bytes);
    assert_eq!(c.framing, Framing::MessageBased);
    let t = c.build().unwrap();
    assert_eq!(t.url, "http://localhost:9898/logs");
    assert_eq!(t.headers, vec![(s("Accept"), s("text/plain"))]);
    assert_eq!(t.content_type, "text/plain");
}

#[test]
fn invalid_endpoint() {
    let c = config("http://no pe", Deserializer::Bytes, Framing::MessageBased);
    assert_eq!(c.build().unwrap_err(), BuildError::InvalidUri);
    let c = config("/relative/only", Deserializer::Bytes, Framing::MessageBased);
    assert_eq!(c.build().unwrap_err(), BuildError::InvalidUri);
    let mut c = config("http://localhost/x", Deserializer::Bytes, Framing::MessageBased);
    c.scrape_interval_secs = 0;
    assert_eq!(c.build().unwrap_err(), BuildError::ZeroInterval);
}

#[test]
fn bytes_decoding() {
    let c = config("http://127.0.0.1:9000/endpoint", Deserializer::Bytes, Framing::MessageBased);
    assert_eq!(c.build().unwrap().content_type, "text/plain");
    let ctx = HttpScrapeContext { framing: c.framing, decoding: c.decoding };
    let events = ctx.on_response(&b"A plain text event".to_vec()).unwrap();
    assert_eq!(events.len(), 1);
    let log = log_of(&events[0]);
    assert_eq!(log.get("message"), Some(&b"A plain text event".to_vec()));
    assert_eq!(log.source_type, Some(s("http_scrape")));
    assert!(log.timestamp.is_some());
}

#[test]
fn json_decoding_newline_delimited() {
    let framing = Framing::NewlineDelimited { max_length: None };
    let c = config("http://127.0.0.1:9000/endpoint", Deserializer::Json, framing);
    assert_eq!(c.build().unwrap().content_type, "application/x-ndjson");
    let ctx = HttpScrapeContext { framing, decoding: Deserializer::Json };
    let events = ctx.on_response(&br#"{"data" : "foo"}"#.to_vec()).unwrap();
    assert_eq!(events.len(), 1);
    let log = log_of(&events[0]);
    assert_eq!(log.get("data"), Some(&b"foo".to_vec()));
    assert_eq!(log.source_type, Some(s("http_scrape")));
}

#[test]
fn json_decoding_character_delimited() {
    let framing = Framing::CharacterDelimited { delimiter: b',', max_length: Some(usize::MAX) };
    let c = config("http://127.0.0.1:9000/endpoint", Deserializer::Json, framing);
    assert_eq!(c.build().unwrap().content_type, "application/json");
    let ctx = HttpScrapeContext { framing, decoding: Deserializer::Json };
    let events = ctx.on_response(&br#"{"data" : "foo"}"#.to_vec()).unwrap();
    assert_eq!(events.len(), 1);
    assert_eq!(log_of(&events[0]).get("data"), Some(&b"foo".to_vec()));
}

#[test]
fn request_query_applied() {
    let mut c = config("http://127.0.0.1:9000/endpoint?key1=val1", Deserializer::Json, Framing::MessageBased);
    c.query = Some(vec![(s("key1"), vec![s("val2")]), (s("key2"), vec![s("val1"), s("val2")])]);
    let t = c.build().unwrap();
    assert_eq!(t.url, "http://127.0.0.1:9000/endpoint?key1=val1&key1=val2&key2=val1&key2=val2");
    assert_eq!(c.build().unwrap(), t);
}

#[test]
fn query_merge_keeps_per_key_order() {
    let raw = parse_query("b=1&a=x&b=2");
    let cfg = vec![(s("a"), vec![s("y"), s("z")]), (s("b"), vec![s("3")])];
    let m = merge_query(&raw, &cfg);
    let b: Vec<&str> = m.iter().filter(|p| p.0 == "b").map(|p| p.1.as_str()).collect();
    let a: Vec<&str> = m.iter().filter(|p| p.0 == "a").map(|p| p.1.as_str()).collect();
    assert_eq!(b, vec!["1", "2", "3"]);
    assert_eq!(a, vec!["x", "y", "z"]);
    assert_eq!(write_query(&m), "b=1&a=x&b=2&a=y&a=z&b=3");
}

#[test]
fn query_parse_edge_cases() {
    assert_eq!(parse_query(""), vec![]);
    assert_eq!(parse_query("a=1&&b&=x&c=d=e"), vec![
        (s("a"), s("1")),
        (s("b"), s("")),
        (s(""), s("x")),
        (s("c"), s("d=e")),
    ]);
    assert_eq!(write_query(&vec![]), "");
}

#[test]
fn content_types() {
    assert_eq!(content_type(&Deserializer::Bytes, &Framing::NewlineDelimited { max_length: None }), "text/plain");
    assert_eq!(content_type(&Deserializer::Json, &Framing::MessageBased), "application/json");
}

#[test]
fn text_round_trip_newline() {
    let framing = Framing::NewlineDelimited { max_length: None };
    let logs = vec![
        LogEvent::from_message(b"first".to_vec()),
        LogEvent::from_message(Vec::new()),
        LogEvent::from_message(b"third".to_vec()),
    ];
    let bytes = encode(&framing, &Serializer::Text, &logs);
    assert_eq!(bytes, b"first\n\nthird\n".to_vec());
    let back = decode(&framing, &Deserializer::Bytes, &bytes);
    let expected: Vec<Event> = logs.into_iter().map(Event::Log).collect();
    assert_eq!(back, expected);
}

#[test]
fn text_round_trip_message_based() {
    let logs = vec![LogEvent::from_message(b"whole body".to_vec())];
    let bytes = encode(&Framing::MessageBased, &Serializer::Text, &logs);
    assert_eq!(bytes, b"whole body".to_vec());
    let back = decode(&Framing::MessageBased, &Deserializer::Bytes, &bytes);
    assert_eq!(back, vec![Event::Log(logs[0].clone())]);
}

#[test]
fn json_encoding_writes_object() {
    let logs = vec![LogEvent::from_message(b"hi".to_vec())];
    let bytes = encode(&Framing::NewlineDelimited { max_length: None }, &Serializer::Json, &logs);
    assert_eq!(bytes, br#"{"message":"hi"}"#.iter().copied().chain([b'\n']).collect::<Vec<u8>>());
}

#[test]
fn decoding_stops_at_first_error() {
    let framing = Framing::NewlineDelimited { max_length: None };
    let body = b"{\"a\":1}\nnot json\n{\"b\":2}\n".to_vec();
    let events = decode(&framing, &Deserializer::Json, &body);
    assert_eq!(events.len(), 1);
    assert_eq!(log_of(&events[0]).get("a"), Some(&b"1".to_vec()));
    assert!(decode(&Framing::MessageBased, &Deserializer::Json, &b"{oops".to_vec()).is_empty());
    assert_eq!(deserialize(&Deserializer::Json, &b"[1,2]".to_vec()).unwrap_err(), DecodeError::InvalidJson);
    assert!(deserialize(&Deserializer::Json, &Vec::new()).unwrap().is_empty());
}

#[test]
fn long_frames_are_dropped() {
    let framing = Framing::CharacterDelimited { delimiter: b',', max_length: Some(3) };
    let events = decode(&framing, &Deserializer::Bytes, &b"ab,abcdef,c,,xyzw".to_vec());
    let msgs: Vec<Vec<u8>> = events.iter().map(|e| log_of(e).get("message").unwrap().clone()).collect();
    assert_eq!(msgs, vec![b"ab".to_vec(), b"c".to_vec(), Vec::new()]);
    assert!(decode(&Framing::MessageBased, &Deserializer::Bytes, &Vec::new()).is_empty());
}

#[test]
fn every_event_is_marked() {
    let ctx = HttpScrapeContext { framing: Framing::NewlineDelimited { max_length: None }, decoding: Deserializer::Bytes };
    let events = ctx.on_response_at(&b"a\nb\nc".to_vec(), 1234);
    assert_eq!(events.len(), 3);
    for e in &events {
        let l = log_of(e);
        assert_eq!(l.source_type, Some(s("http_scrape")));
        assert_eq!(l.timestamp, Some(1234));
    }
}

#[test]
fn enrichment_marks_metrics_and_overwrites_log_markers() {
    let ctx = HttpScrapeContext { framing: Framing::MessageBased, decoding: Deserializer::Bytes };
    let mut events = vec![
        Event::Metric(scrape_io::event::Metric { name: s("m"), value: 3, source_type: None }),
        Event::Log(LogEvent { fields: vec![], source_type: Some(s("other")), timestamp: Some(5) }),
    ];
    ctx.enrich_events_at(&mut events, 99);
    assert_eq!(events[0], Event::Metric(scrape_io::event::Metric { name: s("m"), value: 3, source_type: Some(s("http_scrape")) }));
    assert_eq!(events[1], Event::Log(LogEvent { fields: vec![], source_type: Some(s("http_scrape")), timestamp: Some(99) }));
}

#[test]
fn invalid_utf8_is_replaced() {
    let ctx = HttpScrapeContext { framing: Framing::MessageBased, decoding: Deserializer::Bytes };
    let events = ctx.on_response_at(&vec![b'a', 0xff], 1);
    assert_eq!(log_of(&events[0]).get("message"), Some(&"a\u{fffd}".as_bytes().to_vec()));
}

#[test]
fn shutdown() {
    let (p, a) = scrape_step(&ScrapePhase::Idle, &ScrapeEvent::Tick);
    assert_eq!((p, a), (ScrapePhase::Requesting, ScrapeAction::Request));
    let (p, a) = scrape_step(&p, &ScrapeEvent::Shutdown);
    assert_eq!((p, a), (ScrapePhase::Stopped, ScrapeAction::Stop));
    let (p, a) = scrape_step(&p, &ScrapeEvent::ResponseOk);
    assert_eq!((p, a), (ScrapePhase::Stopped, ScrapeAction::Nothing));
    let deadline = 1_000 + 1_000;
    assert_eq!(shutdown_outcome(deadline, 1_200, None), ShutdownOutcome::Pending);
    assert_eq!(shutdown_outcome(deadline, 1_300, Some(1_300)), ShutdownOutcome::Completed);
    assert_eq!(shutdown_outcome(deadline, 2_001, None), ShutdownOutcome::TimedOut);
    assert_eq!(shutdown_outcome(deadline, 2_500, Some(2_400)), ShutdownOutcome::TimedOut);
}

#[test]
fn scrape_cycle_and_failed_tick() {
    let (p, _) = scrape_step(&ScrapePhase::Idle, &ScrapeEvent::Tick);
    let (q, a) = scrape_step(&p, &ScrapeEvent::ResponseFailed);
    assert_eq!((q, a), (ScrapePhase::Idle, ScrapeAction::Nothing));
    let (q, a) = scrape_step(&p, &ScrapeEvent::ResponseOk);
    assert_eq!((q, a), (ScrapePhase::Emitting, ScrapeAction::DecodeAndEmit));
    let (q, a) = scrape_step(&q, &ScrapeEvent::Emitted);
    assert_eq!((q, a), (ScrapePhase::Idle, ScrapeAction::Nothing));
}

#[test]
fn headers_applied() {
    let mut c = config("http://127.0.0.1:9000/endpoint", Deserializer::Bytes, Framing::MessageBased);
    c.headers = Some(vec![(s("f00"), s("bazz"))]);
    assert_eq!(c.request_headers(), vec![(s("f00"), s("bazz")), (s("Accept"), s("text/plain"))]);
    assert_eq!(c.build().unwrap().headers, c.request_headers());
    let plain = config("http://127.0.0.1:9000/endpoint", Deserializer::Json, Framing::MessageBased);
    assert_eq!(plain.request_headers(), vec![(s("Accept"), s("application/json"))]);
}

#[test]
fn source_description() {
    let c = HttpScrapeConfig::default();
    assert_eq!(c.source_type(), "http_scrape");
    assert!(!c.can_acknowledge());
    let o = c.outputs();
    assert!(o.log && !o.metric && !o.trace);
}
