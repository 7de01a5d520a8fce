//! Registrations of a callback URL for topics, and their JSON form.
use vstd::prelude::*;
use vstd::string::StringExecFns;
use crate::ident::{hyphenated_text, Url, Uuid};
use crate::text::{decimal, push_char, json_string, push_decimal, push_json_string};

verus! {

/// A request to deliver the events of some topics to a callback URL.
#[derive(Debug)]
pub struct Subscription {
    pub callback_url: Url,
    /// Topic names, in the caller's order; duplicates are kept.
    pub topics: Vec<String>,
    /// The subscription's own identity; the service picks one when absent.
    pub uuid: Option<Uuid>,
    /// How long a delivery may take, in milliseconds.
    pub timeout: Option<u64>,
    /// The most events in one delivery.
    pub max_events: Option<usize>,
}

/// The JSON array elements for `ts`, separated by commas.
pub open spec fn json_string_items(ts: Seq<Seq<char>>) -> Seq<char>
    decreases ts.len(),
{
    if ts.len() == 0 {
        seq![]
    } else if ts.len() == 1 {
        json_string(ts[0])
    } else {
        json_string_items(ts.drop_last()) + seq![','] + json_string(ts.last())
    }
}

/// The JSON object of a subscription, keys in the order `callback`,
/// `topics`, `uuid`, `timeout`, `max`. The timeout is the decimal count of
/// milliseconds as a string; absent values are `null`.
pub open spec fn subscription_json(s: Subscription) -> Seq<char> {
    "{\"callback\":"@ + json_string(s.callback_url@) + ",\"topics\":["@ + json_string_items(
        s.topics.deep_view(),
    ) + "],\"uuid\":"@ + match s.uuid {
        Some(u) => json_string(hyphenated_text(u.value)),
        None => "null"@,
    } + ",\"timeout\":"@ + match s.timeout {
        Some(ms) => json_string(decimal(ms as nat)),
        None => "null"@,
    } + ",\"max\":"@ + match s.max_events {
        Some(n) => decimal(n as nat),
        None => "null"@,
    } + "}"@
}

impl Subscription {
    /// The subscription's JSON object, compact, keys in wire order.
    pub fn to_json(&self) -> (r: String)
        ensures
            r@ == subscription_json(*self),
    {
        let mut out = String::new();
        out.append("{\"callback\":");
        push_json_string(&mut out, self.callback_url.as_str());
        out.append(",\"topics\":[");
        let ghost before = out@;
        let ghost ts = self.topics.deep_view();
        let mut i: usize = 0;
        while i < self.topics.len()
            invariant
                ts == self.topics.deep_view(),
                i <= ts.len(),
                out@ == before + json_string_items(ts.take(i as int)),
            decreases ts.len() - i,
        {
            let ghost mid = out@;
            if i > 0 {
                push_char(&mut out, ',');
            }
            push_json_string(&mut out, self.topics[i].as_str());
            proof {
                let t = ts.take(i + 1);
                assert(t.drop_last() =~= ts.take(i as int));
                assert(t.last() == ts[i as int]);
                assert(ts[i as int] == self.topics@[i as int]@);
                if i == 0 {
                    assert(ts.take(0) =~= Seq::<Seq<char>>::empty());
                    assert(out@ =~= before + json_string_items(t));
                } else {
                    assert(out@ =~= before + json_string_items(t));
                }
            }
            i = i + 1;
        }
        assert(ts.take(i as int) =~= ts);
        out.append("],\"uuid\":");
        match &self.uuid {
            Some(u) => {
                let text = u.hyphenated();
                push_json_string(&mut out, text.as_str());
            },
            None => {
                out.append("null");
            },
        }
        out.append(",\"timeout\":");
        match self.timeout {
            Some(ms) => {
                let mut text = String::new();
                push_decimal(&mut text, ms);
                push_json_string(&mut out, text.as_str());
            },
            None => {
                out.append("null");
            },
        }
        out.append(",\"max\":");
        match self.max_events {
            Some(n) => {
                push_decimal(&mut out, n as u64);
            },
            None => {
                out.append("null");
            },
        }
        out.append("}");
        assert(out@ =~= subscription_json(*self));
        out
    }
}

} // verus!
