//! Events pushed to a topic, and their JSON form.
use vstd::prelude::*;
use vstd::string::StringExecFns;
use crate::ident::Url;
use crate::text::{json_string, push_json_string};

verus! {

/// What happened to the subject of an event.
#[derive(Debug, Clone, Copy, PartialEq, Eq, Structural)]
pub enum EventType {
    Created,
    Updated,
    Deleted,
    Noop,
}

/// The lowercase name of an event type.
pub open spec fn event_type_text(t: EventType) -> Seq<char> {
    match t {
        EventType::Created => "created"@,
        EventType::Updated => "updated"@,
        EventType::Deleted => "deleted"@,
        EventType::Noop => "noop"@,
    }
}

impl EventType {
    /// The lowercase name: `created`, `updated`, `deleted` or `noop`.
    pub fn to_string(&self) -> (r: String)
        ensures
            r@ == event_type_text(*self),
    {
        match self {
            EventType::Created => String::from_str("created"),
            EventType::Updated => String::from_str("updated"),
            EventType::Deleted => String::from_str("deleted"),
            EventType::Noop => String::from_str("noop"),
        }
    }
}

/// The text of the UTC date and time `secs` seconds and `nanos` nanoseconds
/// after the Unix epoch, as `2015-05-15 00:00:00` (with a fraction of a
/// second where `nanos` is not zero), if that instant can be represented.
pub uninterp spec fn utc_datetime_text(secs: i64, nanos: u32) -> Option<Seq<char>>;

/// Relies on `chrono::DateTime::from_timestamp` (`None` out of range) and on
/// the `Display` of `chrono::NaiveDateTime` for the instant in UTC.
#[verifier::external_body]
fn format_utc_datetime(secs: i64, nanos: u32) -> (r: Option<String>)
    ensures
        match r {
            Some(t) => utc_datetime_text(secs, nanos) == Some(t@),
            None => utc_datetime_text(secs, nanos) is None,
        },
{
    chrono::DateTime::from_timestamp(secs, nanos).map(|d| d.naive_utc().to_string())
}

/// A point in time, as seconds and nanoseconds after the Unix epoch in UTC.
/// Only instants that have a date and time text are held.
#[derive(Debug, Clone, Copy)]
pub struct Timestamp {
    secs: i64,
    nanos: u32,
}

impl View for Timestamp {
    type V = (i64, u32);

    closed spec fn view(&self) -> (i64, u32) {
        (self.secs, self.nanos)
    }
}

/// The text of a timestamp in the JSON form of an event.
pub open spec fn timestamp_text(t: (i64, u32)) -> Seq<char> {
    match utc_datetime_text(t.0, t.1) {
        Some(s) => s,
        None => seq![],
    }
}

impl Timestamp {
    #[verifier::type_invariant]
    spec fn has_text(&self) -> bool {
        utc_datetime_text(self.secs, self.nanos) is Some
    }

    /// The instant `secs` seconds and `nanos` nanoseconds after the Unix
    /// epoch; `None` where it falls outside the representable range, or
    /// `nanos` is not a valid fraction of that second.
    pub fn from_unix(secs: i64, nanos: u32) -> (r: Option<Timestamp>)
        ensures
            match utc_datetime_text(secs, nanos) {
                Some(_) => r is Some && r->Some_0@ == (secs, nanos),
                None => r is None,
            },
    {
        match format_utc_datetime(secs, nanos) {
            Some(_) => Some(Timestamp { secs, nanos }),
            None => None,
        }
    }

    /// Whole seconds after the Unix epoch.
    pub fn secs(&self) -> (r: i64)
        ensures
            r == self@.0,
    {
        self.secs
    }

    /// Nanoseconds past `secs`.
    pub fn nanos(&self) -> (r: u32)
        ensures
            r == self@.1,
    {
        self.nanos
    }

    /// The date and time text, as `2015-05-15 00:00:00`.
    pub fn to_text(&self) -> (r: String)
        ensures
            utc_datetime_text(self@.0, self@.1) == Some(r@),
            r@ == timestamp_text(self@),
    {
        proof {
            use_type_invariant(self);
        }
        match format_utc_datetime(self.secs, self.nanos) {
            Some(t) => t,
            None => String::new(),
        }
    }
}

/// One notification about a subject URL.
#[derive(Debug)]
pub struct Event {
    pub event_type: EventType,
    pub callback_url: Url,
    pub data: String,
    pub timestamp: Option<Timestamp>,
}

/// The JSON object of an event, keys in the order `type`, `url`, `data`,
/// `timestamp`; an absent timestamp is `null`.
pub open spec fn event_json(e: Event) -> Seq<char> {
    "{\"type\":"@ + json_string(event_type_text(e.event_type)) + ",\"url\":"@ + json_string(
        e.callback_url@,
    ) + ",\"data\":"@ + json_string(e.data@) + ",\"timestamp\":"@ + match e.timestamp {
        Some(t) => json_string(timestamp_text(t@)),
        None => "null"@,
    } + "}"@
}

/// An event without a timestamp carries the key `timestamp` with the value
/// `null` as its last member, rather than leaving the key out.
pub proof fn lemma_absent_timestamp_is_null(e: Event)
    requires
        e.timestamp is None,
    ensures
        exists|head: Seq<char>| event_json(e) == head + ",\"timestamp\":"@ + "null"@ + "}"@,
{
    let head = "{\"type\":"@ + json_string(event_type_text(e.event_type)) + ",\"url\":"@
        + json_string(e.callback_url@) + ",\"data\":"@ + json_string(e.data@);
    assert(event_json(e) == head + ",\"timestamp\":"@ + "null"@ + "}"@);
}

impl Event {
    /// The event of `event_type` about `callback_url`, carrying `data`.
    pub fn new(
        event_type: EventType,
        callback_url: Url,
        data: String,
        timestamp: Option<Timestamp>,
    ) -> (r: Event)
        ensures
            r == (Event { event_type, callback_url, data, timestamp }),
    {
        Event { event_type, callback_url, data, timestamp }
    }

    /// The event's JSON object, compact, keys in wire order.
    pub fn to_json(&self) -> (r: String)
        ensures
            r@ == event_json(*self),
    {
        let mut out = String::new();
        out.append("{\"type\":");
        let name = self.event_type.to_string();
        push_json_string(&mut out, name.as_str());
        out.append(",\"url\":");
        push_json_string(&mut out, self.callback_url.as_str());
        out.append(",\"data\":");
        push_json_string(&mut out, self.data.as_str());
        out.append(",\"timestamp\":");
        match &self.timestamp {
            Some(t) => {
                let text = t.to_text();
                push_json_string(&mut out, text.as_str());
            },
            None => {
                out.append("null");
            },
        }
        out.append("}");
        assert(out@ =~= event_json(*self));
        out
    }
}

} // verus!
