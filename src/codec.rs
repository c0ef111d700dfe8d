//! Turning frames into events and events into bytes.

use vstd::prelude::*;
use crate::event::{
    Event, EventView, LogEvent, events_view, field_lookup, fields_view, message_key, message_log,
    lemma_events_view_concat,
};
use crate::framing::{Framing, delimited_frames, lemma_frames_round_trip};

verus! {

/// How one frame becomes events.
#[derive(Debug, Clone, Copy, PartialEq, Eq)]
pub enum Deserializer {
    /// The frame becomes one log whose message field holds its bytes.
    Bytes,
    /// The frame is one JSON object and becomes one log with its members as
    /// fields; an empty frame gives no event.
    Json,
}

/// How a log becomes the bytes of one frame.
#[derive(Debug, Clone, Copy, PartialEq, Eq)]
pub enum Serializer {
    /// The bytes of the message field (none where the log has no such field).
    Text,
    /// A JSON object with the log's fields as members.
    Json,
}

/// Why a frame could not be turned into events.
#[derive(Debug, Clone, Copy, PartialEq, Eq)]
pub enum DecodeError {
    InvalidJson,
}

/// The members of the JSON object that the bytes hold, each value as bytes:
/// the contents of a JSON string, else the value's JSON text. `None` where
/// the bytes are not one JSON object.
pub uninterp spec fn json_object_fields(b: Seq<u8>) -> Option<Seq<(Seq<char>, Seq<u8>)>>;

/// The JSON text of an object with the given members, each value written
/// as a JSON string.
pub uninterp spec fn json_object_text(fields: Seq<(Seq<char>, Seq<u8>)>) -> Seq<u8>;

/// Relies on `serde_json::from_slice` reading one JSON object, and on
/// `serde_json::Value`'s `to_string` for the text of a member that is not a string.
#[verifier::external_body]
fn parse_json_object(b: &[u8]) -> (r: Option<Vec<(String, Vec<u8>)>>)
    ensures
        match r {
            Some(v) => json_object_fields(b@) == Some(fields_view(v@)),
            None => json_object_fields(b@) is None,
        },
{
    let m: serde_json::Map<String, serde_json::Value> = serde_json::from_slice(b).ok()?;
    Some(m.into_iter().map(|(k, v)| match v {
        serde_json::Value::String(s) => (k, s.into_bytes()),
        other => (k, other.to_string().into_bytes()),
    }).collect())
}

/// Relies on `serde_json::to_vec` writing a map of strings as a JSON object;
/// bytes that are not UTF-8 are read with replacement characters.
#[verifier::external_body]
fn write_json_object(fields: &Vec<(String, Vec<u8>)>) -> (r: Vec<u8>)
    ensures
        r@ == json_object_text(fields_view(fields@)),
{
    let m: serde_json::Map<String, serde_json::Value> = fields.iter().map(|(k, v)|
        (k.clone(), serde_json::Value::String(String::from_utf8_lossy(v).into_owned()))
    ).collect();
    serde_json::to_vec(&m).unwrap_or_default()
}

/// The events that one frame gives, or `None` where it is malformed.
pub open spec fn deserialized(d: Deserializer, frame: Seq<u8>) -> Option<Seq<EventView>> {
    match d {
        Deserializer::Bytes => Some(seq![message_log(frame)]),
        Deserializer::Json => if frame.len() == 0 {
            Some(seq![])
        } else {
            match json_object_fields(frame) {
                Some(f) => Some(seq![EventView::Log { fields: f, source_type: None, timestamp: None }]),
                None => None,
            }
        },
    }
}

/// The events of the frames in order, up to the first malformed frame:
/// that frame and all after it are dropped.
pub open spec fn decoded_frames(d: Deserializer, frames: Seq<Seq<u8>>) -> Seq<EventView>
    decreases frames.len(),
{
    if frames.len() == 0 {
        seq![]
    } else {
        match deserialized(d, frames[0]) {
            Some(es) => es + decoded_frames(d, frames.drop_first()),
            None => seq![],
        }
    }
}

/// The events that a buffer decodes to.
pub open spec fn decoded(f: Framing, d: Deserializer, buf: Seq<u8>) -> Seq<EventView> {
    decoded_frames(d, f.frames(buf))
}

/// The bytes that a log becomes under a serializer.
pub open spec fn serialized(s: Serializer, fields: Seq<(Seq<char>, Seq<u8>)>) -> Seq<u8> {
    match s {
        Serializer::Text => match field_lookup(fields, message_key()) {
            Some(m) => m,
            None => seq![],
        },
        Serializer::Json => json_object_text(fields),
    }
}

pub proof fn lemma_decoded_frames_cons(d: Deserializer, f: Seq<u8>, rest: Seq<Seq<u8>>)
    ensures
        decoded_frames(d, seq![f] + rest) == match deserialized(d, f) {
            Some(es) => es + decoded_frames(d, rest),
            None => seq![],
        },
{
    let s = seq![f] + rest;
    assert(s[0] == f);
    assert(s.drop_first() =~= rest);
}

/// Turns one frame into events.
pub fn deserialize(d: &Deserializer, frame: &Vec<u8>) -> (r: Result<Vec<Event>, DecodeError>)
    ensures
        match r {
            Ok(v) => deserialized(*d, frame@) == Some(events_view(v@)),
            Err(_) => deserialized(*d, frame@) is None,
        },
{
    match d {
        Deserializer::Bytes => {
            let bytes = frame.clone();
            assert(bytes@ =~= frame@);
            let log = LogEvent::from_message(bytes);
            let mut v: Vec<Event> = Vec::new();
            v.push(Event::Log(log));
            assert(events_view(v@) =~= seq![message_log(frame@)]);
            Ok(v)
        },
        Deserializer::Json => {
            let mut v: Vec<Event> = Vec::new();
            if frame.len() == 0 {
                assert(events_view(v@) =~= Seq::<EventView>::empty());
                return Ok(v);
            }
            match parse_json_object(frame.as_slice()) {
                Some(fields) => {
                    let log = LogEvent { fields, source_type: None, timestamp: None };
                    v.push(Event::Log(log));
                    assert(events_view(v@) =~= seq![Event::Log(log)@]);
                    Ok(v)
                },
                None => Err(DecodeError::InvalidJson),
            }
        },
    }
}

/// Decodes a delimited buffer frame by frame, stopping at the first frame
/// that does not deserialize.
fn decode_delimited(delim: u8, max: usize, d: &Deserializer, buf: &Vec<u8>) -> (r: Vec<Event>)
    ensures
        events_view(r@) == decoded_frames(*d, delimited_frames(delim, max as int, buf@, seq![])),
{
    let ghost total = decoded_frames(*d, delimited_frames(delim, max as int, buf@, seq![]));
    let mut out: Vec<Event> = Vec::new();
    let mut cur: Vec<u8> = Vec::new();
    let mut i: usize = 0;
    assert(buf@.subrange(0, buf@.len() as int) =~= buf@);
    assert(cur@ =~= Seq::<u8>::empty());
    assert(events_view(out@) =~= Seq::<EventView>::empty());
    assert(total =~= events_view(out@) + total);
    while i < buf.len()
        invariant
            i <= buf@.len(),
            total == decoded_frames(*d, delimited_frames(delim, max as int, buf@, seq![])),
            total == events_view(out@) + decoded_frames(
                *d,
                delimited_frames(delim, max as int, buf@.subrange(i as int, buf@.len() as int), cur@),
            ),
        decreases buf@.len() - i,
    {
        let ghost rest = buf@.subrange(i as int, buf@.len() as int);
        let ghost next = buf@.subrange(i + 1, buf@.len() as int);
        assert(rest[0] == buf@[i as int]);
        assert(rest.drop_first() =~= next);
        if buf[i] == delim {
            if cur.len() <= max {
                let ghost after = delimited_frames(delim, max as int, next, seq![]);
                proof {
                    lemma_decoded_frames_cons(*d, cur@, after);
                }
                match deserialize(d, &cur) {
                    Ok(mut es) => {
                        let ghost prev = out@;
                        let ghost got = es@;
                        out.append(&mut es);
                        proof {
                            lemma_events_view_concat(prev, got);
                            assert(events_view(prev) + events_view(got) + decoded_frames(*d, after)
                                =~= events_view(prev) + (events_view(got) + decoded_frames(*d, after)));
                        }
                    },
                    Err(_) => {
                        assert(total =~= events_view(out@));
                        return out;
                    },
                }
            }
            cur = Vec::new();
            assert(cur@ =~= Seq::<u8>::empty());
        } else {
            cur.push(buf[i]);
        }
        i = i + 1;
    }
    assert(buf@.subrange(i as int, buf@.len() as int) =~= Seq::<u8>::empty());
    if cur.len() > 0 && cur.len() <= max {
        proof {
            lemma_decoded_frames_cons(*d, cur@, seq![]);
        }
        assert(decoded_frames(*d, Seq::<Seq<u8>>::empty()) == Seq::<EventView>::empty());
        assert(seq![cur@] + Seq::<Seq<u8>>::empty() =~= seq![cur@]);
        match deserialize(d, &cur) {
            Ok(mut es) => {
                let ghost prev = out@;
                let ghost got = es@;
                out.append(&mut es);
                proof {
                    lemma_events_view_concat(prev, got);
                    assert(events_view(got) + Seq::<EventView>::empty() =~= events_view(got));
                }
            },
            Err(_) => {},
        }
    }
    assert(total =~= events_view(out@));
    out
}

/// Decodes a whole buffer: cuts it into frames and deserializes them in order,
/// keeping the events decoded before the first malformed frame and dropping
/// the rest of the buffer.
pub fn decode(f: &Framing, d: &Deserializer, buf: &Vec<u8>) -> (r: Vec<Event>)
    ensures
        events_view(r@) == decoded(*f, *d, buf@),
{
    match f.delimiter() {
        None => {
            let empty: Vec<Event> = Vec::new();
            assert(events_view(empty@) =~= Seq::<EventView>::empty());
            if buf.len() == 0 {
                return empty;
            }
            proof {
                lemma_decoded_frames_cons(*d, buf@, seq![]);
            }
            assert(seq![buf@] + Seq::<Seq<u8>>::empty() =~= seq![buf@]);
            assert(decoded_frames(*d, Seq::<Seq<u8>>::empty()) == Seq::<EventView>::empty());
            match deserialize(d, buf) {
                Ok(es) => {
                    assert(events_view(es@) + Seq::<EventView>::empty() =~= events_view(es@));
                    es
                },
                Err(_) => empty,
            }
        },
        Some(delim) => decode_delimited(delim, f.max_frame_length(), d, buf),
    }
}

/// The bytes that carry the logs with the given fields.
pub open spec fn encoded(f: Framing, s: Serializer, logs: Seq<Seq<(Seq<char>, Seq<u8>)>>) -> Seq<u8> {
    f.joined(logs.map_values(|l: Seq<(Seq<char>, Seq<u8>)>| serialized(s, l)))
}

/// The bytes that one log becomes.
pub fn serialize(s: &Serializer, log: &LogEvent) -> (r: Vec<u8>)
    ensures
        r@ == serialized(*s, fields_view(log.fields@)),
{
    match s {
        Serializer::Text => {
            proof {
                reveal_strlit("message");
                assert("message"@ =~= message_key());
            }
            match log.get("message") {
                Some(m) => {
                    let out = m.clone();
                    assert(out@ =~= m@);
                    out
                },
                None => Vec::new(),
            }
        },
        Serializer::Json => write_json_object(&log.fields),
    }
}

/// The bytes that carry the logs, one frame each, in order.
pub fn encode(f: &Framing, s: &Serializer, logs: &Vec<LogEvent>) -> (r: Vec<u8>)
    ensures
        r@ == encoded(*f, *s, logs@.map_values(|l: LogEvent| fields_view(l.fields@))),
{
    let mut frames: Vec<Vec<u8>> = Vec::new();
    let mut i: usize = 0;
    while i < logs.len()
        invariant
            i <= logs@.len(),
            frames@.len() == i,
            forall|j: int| 0 <= j < i ==> #[trigger] frames@[j]@ == serialized(*s, fields_view(logs@[j].fields@)),
        decreases logs@.len() - i,
    {
        let b = serialize(s, &logs[i]);
        frames.push(b);
        i = i + 1;
    }
    let r = f.join(&frames);
    assert(frames@.map_values(|v: Vec<u8>| v@) =~= logs@.map_values(|l: LogEvent| fields_view(l.fields@)).map_values(
        |l: Seq<(Seq<char>, Seq<u8>)>| serialized(*s, l),
    ));
    r
}

/// Under the raw-bytes deserializer each frame becomes its message log.
proof fn lemma_bytes_frames(frames: Seq<Seq<u8>>)
    ensures
        decoded_frames(Deserializer::Bytes, frames) == frames.map_values(|m: Seq<u8>| message_log(m)),
    decreases frames.len(),
{
    if frames.len() == 0 {
        assert(frames.map_values(|m: Seq<u8>| message_log(m)) =~= Seq::<EventView>::empty());
    } else {
        lemma_bytes_frames(frames.drop_first());
        assert(frames.map_values(|m: Seq<u8>| message_log(m)) =~= seq![message_log(frames[0])]
            + frames.drop_first().map_values(|m: Seq<u8>| message_log(m)));
    }
}

/// Round trip: messages written with the text serializer and the framing,
/// then decoded with the same framing and the raw-bytes deserializer, give
/// back one log per message, in order, where the framing carries the
/// messages (no delimiter inside them, none longer than the limit; a single
/// non-empty message for message-based framing).
pub proof fn lemma_encode_decode_round_trip(f: Framing, msgs: Seq<Seq<u8>>)
    requires
        f.carries(msgs),
    ensures
        decoded(
            f,
            Deserializer::Bytes,
            encoded(f, Serializer::Text, msgs.map_values(|m: Seq<u8>| seq![(message_key(), m)])),
        ) == msgs.map_values(|m: Seq<u8>| message_log(m)),
{
    let logs = msgs.map_values(|m: Seq<u8>| seq![(message_key(), m)]);
    assert forall|i: int| 0 <= i < msgs.len() implies serialized(Serializer::Text, #[trigger] logs[i])
        == msgs[i] by {
        let l = logs[i];
        assert(l[0].0 == message_key());
    }
    assert(logs.map_values(|l: Seq<(Seq<char>, Seq<u8>)>| serialized(Serializer::Text, l)) =~= msgs);
    lemma_frames_round_trip(f, msgs);
    lemma_bytes_frames(msgs);
}

/// A malformed frame ends decoding: whatever follows it is dropped, and the
/// result is the events of the frames before it.
pub proof fn lemma_decode_stops_at_first_error(d: Deserializer, frames: Seq<Seq<u8>>, k: int, rest: Seq<Seq<u8>>)
    requires
        0 <= k < frames.len(),
        deserialized(d, frames[k]) is None,
    ensures
        decoded_frames(d, frames.take(k + 1) + rest) == decoded_frames(d, frames.take(k)),
        decoded_frames(d, frames) == decoded_frames(d, frames.take(k)),
    decreases k,
{
    let a = frames.take(k + 1) + rest;
    assert(a[0] == frames[0]);
    if k == 0 {
        assert(frames.take(0) =~= Seq::<Seq<u8>>::empty());
    } else {
        let tail = frames.drop_first();
        lemma_decode_stops_at_first_error(d, tail, k - 1, rest);
        assert(a.drop_first() =~= tail.take(k) + rest);
        assert(frames.take(k)[0] == frames[0]);
        assert(frames.take(k).drop_first() =~= tail.take(k - 1));
    }
}

} // verus!
