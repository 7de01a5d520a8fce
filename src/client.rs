//! The client: turns each operation of the service into the one HTTP request
//! that carries it.
use vstd::prelude::*;
use vstd::string::{StringExecFns, StringSliceAdditionalSpecFns};
use crate::error::ClientError;
use crate::event::{event_json, Event};
use crate::ident::{hyphenated_text, joined_url, Url, Uuid};
use crate::segment::{decode_segment, encode_segment, is_delimiter, lemma_segment_round_trip, push_segment};
use crate::subscription::{subscription_json, Subscription};

verus! {

/// The HTTP methods the service's endpoints use.
#[derive(Debug, Clone, Copy, PartialEq, Eq, Structural)]
pub enum Method {
    Get,
    Post,
    Delete,
}

/// One HTTP request to the service. It authenticates with HTTP Basic, the
/// user name `username` and no password; `body`, where present, is JSON.
#[derive(Debug)]
pub struct Request {
    pub method: Method,
    pub url: Url,
    pub username: String,
    pub body: Option<String>,
}

/// A client of the service: its base URL, against which every endpoint path
/// is resolved, and the identity it authenticates with.
#[derive(Debug)]
pub struct Client {
    url: Url,
    uuid: Uuid,
}

/// The relative path of the endpoint for one topic under `prefix`.
pub open spec fn topic_path(prefix: Seq<char>, topic: &str) -> Seq<char> {
    prefix + encode_segment(topic.spec_bytes())
}

impl Client {
    /// The base URL.
    pub closed spec fn base(&self) -> Seq<char> {
        self.url@
    }

    /// The identity.
    pub closed spec fn identity(&self) -> Uuid {
        self.uuid
    }

    /// What an operation owes: where `path` resolves against the base URL,
    /// the request with `method` to the resolved URL, authenticated as the
    /// client's identity, with `body`; else a URL construction error.
    pub open spec fn builds(
        &self,
        r: Result<Request, ClientError>,
        method: Method,
        path: Seq<char>,
        body: Option<Seq<char>>,
    ) -> bool {
        match joined_url(self.base(), path) {
            Some(target) => r is Ok && r->Ok_0.method == method && r->Ok_0.url@ == target
                && r->Ok_0.username@ == hyphenated_text(self.identity().value) && match body {
                Some(b) => r->Ok_0.body is Some && r->Ok_0.body->Some_0@ == b,
                None => r->Ok_0.body is None,
            },
            None => r is Err && r->Err_0 is UrlConstruction,
        }
    }

    /// A client of the service at `url`, identified by `uuid`.
    pub fn new(url: Url, uuid: Uuid) -> (r: Client)
        ensures
            r.base() == url@,
            r.identity() == uuid,
    {
        Client { url, uuid }
    }

    /// The base URL.
    pub fn url(&self) -> (r: &Url)
        ensures
            r@ == self.base(),
    {
        &self.url
    }

    /// The identity.
    pub fn uuid(&self) -> (r: Uuid)
        ensures
            r == self.identity(),
    {
        self.uuid
    }

    /// The Basic-Auth user name: the identity in hyphenated form.
    pub fn username(&self) -> (r: String)
        ensures
            r@ == hyphenated_text(self.identity().value),
    {
        self.uuid.hyphenated()
    }

    fn request(&self, method: Method, path: &str, body: Option<String>) -> (r: Result<
        Request,
        ClientError,
    >)
        ensures
            self.builds(
                r,
                method,
                path@,
                match body {
                    Some(b) => Some(b@),
                    None => None,
                },
            ),
    {
        match self.url.join(path) {
            Ok(url) => {
                let username = self.uuid.hyphenated();
                Ok(Request { method, url, username, body })
            },
            Err(e) => Err(e),
        }
    }

    /// Registers `subscription`: a POST of its JSON to `subscription`.
    pub fn subscribe(&self, subscription: Subscription) -> (r: Result<Request, ClientError>)
        ensures
            self.builds(r, Method::Post, "subscription"@, Some(subscription_json(subscription))),
    {
        let body = subscription.to_json();
        self.request(Method::Post, "subscription", Some(body))
    }

    /// Leaves one topic: a DELETE of `subscriber/topics/` followed by the
    /// topic, percent-encoded as one path segment.
    pub fn unsubscribe(&self, topic: &str) -> (r: Result<Request, ClientError>)
        ensures
            self.builds(r, Method::Delete, topic_path("subscriber/topics/"@, topic), None),
    {
        let mut path = String::from_str("subscriber/topics/");
        push_segment(&mut path, topic);
        self.request(Method::Delete, path.as_str(), None)
    }

    /// Leaves every topic: a DELETE of `subscriber`.
    pub fn unsubscribe_all(&self) -> (r: Result<Request, ClientError>)
        ensures
            self.builds(r, Method::Delete, "subscriber"@, None),
    {
        self.request(Method::Delete, "subscriber", None)
    }

    /// Publishes `event` on `topic`: a POST of its JSON to `topics/`
    /// followed by the topic, percent-encoded as one path segment.
    pub fn push(&self, topic: &str, event: Event) -> (r: Result<Request, ClientError>)
        ensures
            self.builds(r, Method::Post, topic_path("topics/"@, topic), Some(event_json(event))),
    {
        let mut path = String::from_str("topics/");
        push_segment(&mut path, topic);
        let body = event.to_json();
        self.request(Method::Post, path.as_str(), Some(body))
    }

    /// Listing the topics is not offered: always `NotImplemented`.
    pub fn topics(&self) -> (r: Result<Vec<String>, ClientError>)
        ensures
            r is Err && r->Err_0 is NotImplemented,
    {
        Err(ClientError::NotImplemented)
    }

    /// Creating a token is not offered: always `NotImplemented`.
    pub fn create_token(&self) -> (r: Result<(), ClientError>)
        ensures
            r is Err && r->Err_0 is NotImplemented,
    {
        Err(ClientError::NotImplemented)
    }

    /// Deleting a token is not offered: always `NotImplemented`.
    pub fn delete_token(&self) -> (r: Result<(), ClientError>)
        ensures
            r is Err && r->Err_0 is NotImplemented,
    {
        Err(ClientError::NotImplemented)
    }
}

/// Whatever `unsubscribe(topic)` returns, it resolves `subscriber/topics/`
/// followed by one path segment that percent-decodes to the topic's UTF-8
/// bytes and holds no `/`, `\`, `?` or `#`: the topic cannot reach outside
/// its segment, and can be read back from it.
pub proof fn lemma_unsubscribe_target(c: &Client, topic: &str, r: Result<Request, ClientError>)
    requires
        c.builds(r, Method::Delete, topic_path("subscriber/topics/"@, topic), None),
    ensures
        exists|seg: Seq<char>|
            {
                &&& decode_segment(seg) == topic.spec_bytes()
                &&& forall|i: int| 0 <= i < seg.len() ==> !is_delimiter(#[trigger] seg[i])
                &&& match joined_url(c.base(), "subscriber/topics/"@ + seg) {
                    Some(t) => r is Ok && r->Ok_0.url@ == t && r->Ok_0.method == Method::Delete,
                    None => r is Err,
                }
            },
{
    let seg = encode_segment(topic.spec_bytes());
    lemma_segment_round_trip(topic.spec_bytes());
    assert(topic_path("subscriber/topics/"@, topic) == "subscriber/topics/"@ + seg);
}

/// The operations that the client offers never fail as not implemented:
/// the only error they end in is a URL construction error.
pub proof fn lemma_offered_fail_only_on_url(
    c: &Client,
    r: Result<Request, ClientError>,
    method: Method,
    path: Seq<char>,
    body: Option<Seq<char>>,
)
    requires
        c.builds(r, method, path, body),
    ensures
        r is Err ==> r->Err_0 is UrlConstruction,
        !(r is Err && r->Err_0 is NotImplemented),
{
}

} // verus!
