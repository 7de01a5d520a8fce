//! The errors that building a request can end in.
use vstd::prelude::*;

verus! {

#[verifier::external_type_specification]
#[verifier::external_body]
pub struct ExParseError(url::ParseError);

#[verifier::external_type_specification]
#[verifier::external_body]
pub struct ExUuidError(uuid::Error);

/// Why an operation of the client failed.
#[derive(Debug)]
pub enum ClientError {
    /// A URL did not parse, or a path did not resolve against the base URL.
    UrlConstruction(url::ParseError),
    /// A text did not parse as a UUID.
    InvalidUuid(uuid::Error),
    /// A value could not be encoded as JSON. The values of this library
    /// always encode, so no operation returns it today.
    Serialization,
    /// The operation is not offered by this client.
    NotImplemented,
}

} // verus!
