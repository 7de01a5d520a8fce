//! The identifiers the client deals in: absolute URLs and UUIDs.
use vstd::prelude::*;
use crate::error::ClientError;
use crate::text::hex_lower;

verus! {

/// The serialization of the URL that `input` parses to, if it parses as an
/// absolute URL.
pub uninterp spec fn parsed_url(input: Seq<char>) -> Option<Seq<char>>;

/// The serialization of the URL that `input` resolves to against the URL
/// whose serialization is `base`, if both steps succeed.
pub uninterp spec fn joined_url(base: Seq<char>, input: Seq<char>) -> Option<Seq<char>>;

/// The UUID that `input` parses to, if it is one in a form the parser takes.
pub uninterp spec fn parsed_uuid(input: Seq<char>) -> Option<u128>;

/// Relies on `url::Url::parse`: parses an absolute URL and hands back its
/// serialization.
#[verifier::external_body]
fn parse_url(input: &str) -> (r: Result<String, url::ParseError>)
    ensures
        match r {
            Ok(t) => parsed_url(input@) == Some(t@),
            Err(_) => parsed_url(input@) is None,
        },
{
    url::Url::parse(input).map(String::from)
}

/// Relies on `url::Url::join` (RFC 3986 reference resolution, as the WHATWG
/// URL standard refines it), on the URL that `url::Url::parse` reads from the
/// serialization `base`; hands back the serialization of the result.
#[verifier::external_body]
fn join_url(base: &str, input: &str) -> (r: Result<String, url::ParseError>)
    ensures
        match r {
            Ok(t) => joined_url(base@, input@) == Some(t@),
            Err(_) => joined_url(base@, input@) is None,
        },
{
    url::Url::parse(base).and_then(|b| b.join(input)).map(String::from)
}

/// Relies on `uuid::Uuid::parse_str`: accepts the simple, hyphenated,
/// braced and URN forms, and hands back the UUID's 128 bits.
#[verifier::external_body]
fn parse_uuid(input: &str) -> (r: Result<u128, uuid::Error>)
    ensures
        match r {
            Ok(v) => parsed_uuid(input@) == Some(v),
            Err(_) => parsed_uuid(input@) is None,
        },
{
    uuid::Uuid::parse_str(input).map(|u| u.as_u128())
}

/// The last `n` hexadecimal digits of `v`, most significant first.
pub open spec fn hex_digits(v: nat, n: nat) -> Seq<char>
    decreases n,
{
    if n == 0 {
        seq![]
    } else {
        hex_digits(v / 16, (n - 1) as nat).push(hex_lower(v % 16))
    }
}

/// The hyphenated lowercase form of a UUID: 32 hexadecimal digits in groups
/// of 8, 4, 4, 4 and 12, joined by `-`.
pub open spec fn hyphenated_text(v: u128) -> Seq<char> {
    let d = hex_digits(v as nat, 32);
    d.subrange(0, 8) + seq!['-'] + d.subrange(8, 12) + seq!['-'] + d.subrange(12, 16) + seq!['-']
        + d.subrange(16, 20) + seq!['-'] + d.subrange(20, 32)
}

/// Relies on `uuid::Uuid::from_u128` and `uuid::fmt::Hyphenated`'s
/// `Display`: the lowercase hyphenated form.
#[verifier::external_body]
fn format_hyphenated(v: u128) -> (r: String)
    ensures
        r@ == hyphenated_text(v),
{
    uuid::Uuid::from_u128(v).hyphenated().to_string()
}

/// An absolute URL, held as its serialization.
#[derive(Debug)]
pub struct Url {
    text: String,
}

impl View for Url {
    type V = Seq<char>;

    closed spec fn view(&self) -> Seq<char> {
        self.text@
    }
}

impl Url {
    /// Parses an absolute URL.
    pub fn parse(input: &str) -> (r: Result<Url, ClientError>)
        ensures
            match parsed_url(input@) {
                Some(t) => r is Ok && r->Ok_0@ == t,
                None => r is Err && r->Err_0 is UrlConstruction,
            },
    {
        match parse_url(input) {
            Ok(text) => Ok(Url { text }),
            Err(e) => Err(ClientError::UrlConstruction(e)),
        }
    }

    /// Resolves `input` against this URL as a relative reference.
    pub fn join(&self, input: &str) -> (r: Result<Url, ClientError>)
        ensures
            match joined_url(self@, input@) {
                Some(t) => r is Ok && r->Ok_0@ == t,
                None => r is Err && r->Err_0 is UrlConstruction,
            },
    {
        match join_url(self.text.as_str(), input) {
            Ok(text) => Ok(Url { text }),
            Err(e) => Err(ClientError::UrlConstruction(e)),
        }
    }

    /// The URL's serialization.
    pub fn as_str(&self) -> (r: &str)
        ensures
            r@ == self@,
    {
        self.text.as_str()
    }
}

/// A UUID, held as its 128 bits.
#[derive(Debug, Clone, Copy, PartialEq, Eq, Structural)]
pub struct Uuid {
    pub value: u128,
}

impl Uuid {
    /// The UUID with the bits `value`.
    pub fn from_u128(value: u128) -> (r: Uuid)
        ensures
            r.value == value,
    {
        Uuid { value }
    }

    /// Parses a UUID in any of the simple, hyphenated, braced or URN forms.
    pub fn parse_str(input: &str) -> (r: Result<Uuid, ClientError>)
        ensures
            match parsed_uuid(input@) {
                Some(v) => r == Ok::<Uuid, ClientError>(Uuid { value: v }),
                None => r is Err && r->Err_0 is InvalidUuid,
            },
    {
        match parse_uuid(input) {
            Ok(value) => Ok(Uuid { value }),
            Err(e) => Err(ClientError::InvalidUuid(e)),
        }
    }

    /// The UUID's 128 bits.
    pub fn as_u128(&self) -> (r: u128)
        ensures
            r == self.value,
    {
        self.value
    }

    /// The hyphenated lowercase form, as in `67e55044-10b1-426f-9247-bb680e5fe0c8`.
    pub fn hyphenated(&self) -> (r: String)
        ensures
            r@ == hyphenated_text(self.value),
    {
        format_hyphenated(self.value)
    }
}

} // verus!
