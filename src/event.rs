//! Events carried through the pipeline and their mathematical views.

use vstd::prelude::*;

verus! {

/// A log record: named fields holding bytes, plus the reserved source-type
/// and timestamp (milliseconds since the epoch) fields.
#[derive(Debug, Clone, PartialEq, Eq)]
pub struct LogEvent {
    pub fields: Vec<(String, Vec<u8>)>,
    pub source_type: Option<String>,
    pub timestamp: Option<i64>,
}

/// A metric sample; `source_type` is its source-type tag.
#[derive(Debug, Clone, PartialEq, Eq)]
pub struct Metric {
    pub name: String,
    pub value: i64,
    pub source_type: Option<String>,
}

/// A trace: named fields holding bytes, plus the source-type field.
#[derive(Debug, Clone, PartialEq, Eq)]
pub struct TraceEvent {
    pub fields: Vec<(String, Vec<u8>)>,
    pub source_type: Option<String>,
}

#[derive(Debug, Clone, PartialEq, Eq)]
pub enum Event {
    Log(LogEvent),
    Metric(Metric),
    Trace(TraceEvent),
}

/// The kinds of event that a component accepts or emits.
#[derive(Debug, Clone, Copy, PartialEq, Eq)]
pub struct Input {
    pub log: bool,
    pub metric: bool,
    pub trace: bool,
}

/// What an event is, as mathematical values.
pub enum EventView {
    Log { fields: Seq<(Seq<char>, Seq<u8>)>, source_type: Option<Seq<char>>, timestamp: Option<i64> },
    Metric { name: Seq<char>, value: i64, source_type: Option<Seq<char>> },
    Trace { fields: Seq<(Seq<char>, Seq<u8>)>, source_type: Option<Seq<char>> },
}

pub open spec fn fields_view(f: Seq<(String, Vec<u8>)>) -> Seq<(Seq<char>, Seq<u8>)> {
    f.map_values(|p: (String, Vec<u8>)| (p.0@, p.1@))
}

pub open spec fn opt_str_view(o: Option<String>) -> Option<Seq<char>> {
    match o {
        Some(s) => Some(s@),
        None => None,
    }
}

impl View for Event {
    type V = EventView;

    open spec fn view(&self) -> EventView {
        match self {
            Event::Log(l) => EventView::Log {
                fields: fields_view(l.fields@),
                source_type: opt_str_view(l.source_type),
                timestamp: l.timestamp,
            },
            Event::Metric(m) => EventView::Metric {
                name: m.name@,
                value: m.value,
                source_type: opt_str_view(m.source_type),
            },
            Event::Trace(t) => EventView::Trace {
                fields: fields_view(t.fields@),
                source_type: opt_str_view(t.source_type),
            },
        }
    }
}

/// The views of a sequence of events.
pub open spec fn events_view(s: Seq<Event>) -> Seq<EventView> {
    s.map_values(|e: Event| e@)
}

/// The field name under which the raw-bytes deserializer stores a frame.
pub open spec fn message_key() -> Seq<char> {
    seq!['m', 'e', 's', 's', 'a', 'g', 'e']
}

/// The first field named `name`, if any.
pub open spec fn field_lookup(fields: Seq<(Seq<char>, Seq<u8>)>, name: Seq<char>) -> Option<Seq<u8>>
    decreases fields.len(),
{
    if fields.len() == 0 {
        None
    } else if fields[0].0 == name {
        Some(fields[0].1)
    } else {
        field_lookup(fields.drop_first(), name)
    }
}

/// A log whose only field is the message `m`.
pub open spec fn message_log(m: Seq<u8>) -> EventView {
    EventView::Log { fields: seq![(message_key(), m)], source_type: None, timestamp: None }
}

pub proof fn lemma_events_view_concat(a: Seq<Event>, b: Seq<Event>)
    ensures
        events_view(a + b) == events_view(a) + events_view(b),
{
    assert(events_view(a + b) =~= events_view(a) + events_view(b));
}

impl LogEvent {
    /// A log holding `message` under the message field and nothing else.
    pub fn from_message(message: Vec<u8>) -> (r: LogEvent)
        ensures
            Event::Log(r)@ == message_log(message@),
    {
        let key = String::from_str("message");
        proof {
            reveal_strlit("message");
            assert(key@ =~= message_key());
        }
        let mut fields: Vec<(String, Vec<u8>)> = Vec::new();
        fields.push((key, message));
        proof {
            assert(fields_view(fields@) =~= seq![(message_key(), message@)]);
        }
        LogEvent { fields, source_type: None, timestamp: None }
    }

    /// The bytes held under the first field named `name`, if any.
    pub fn get(&self, name: &str) -> (r: Option<&Vec<u8>>)
        ensures
            match r {
                Some(v) => field_lookup(fields_view(self.fields@), name@) == Some(v@),
                None => field_lookup(fields_view(self.fields@), name@) is None,
            },
    {
        let ghost fv = fields_view(self.fields@);
        let wanted = String::from_str(name);
        let mut i: usize = 0;
        assert(fv.subrange(0, fv.len() as int) =~= fv);
        while i < self.fields.len()
            invariant
                i <= self.fields@.len(),
                wanted@ == name@,
                fv == fields_view(self.fields@),
                field_lookup(fv, name@) == field_lookup(fv.subrange(i as int, fv.len() as int), name@),
            decreases self.fields@.len() - i,
        {
            let ghost rest = fv.subrange(i as int, fv.len() as int);
            assert(rest[0] == fv[i as int]);
            assert(rest.drop_first() =~= fv.subrange(i + 1, fv.len() as int));
            if self.fields[i].0 == wanted {
                return Some(&self.fields[i].1);
            }
            i = i + 1;
        }
        None
    }
}

} // verus!
