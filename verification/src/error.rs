use vstd::prelude::*;
use vstd::string::*;

verus! {

/// Errors of the client. Each variant carries the text that describes it.
#[derive(Debug, PartialEq, Eq)]
pub enum Error {
    /// The credentials are missing or were refused.
    Auth(String),
    /// The connection to the service could not be made.
    Connection(String),
    /// No deployed function has the name asked for.
    FunctionNotFound(String),
    /// Arguments could not be encoded.
    Serialization(String),
    /// A result could not be decoded.
    Deserialization(String),
    /// The remote procedure call failed.
    Grpc(String),
    /// A plain HTTP transfer failed.
    Http(String),
    /// Local input or output failed.
    Io(String),
    /// Any other failure, such as a remote exception or a timeout.
    Other(String),
}

/// The result of an operation of the client.
pub type Result<T> = core::result::Result<T, Error>;

/// The text that opens the description of each kind of error.
pub open spec fn error_prefix(e: Error) -> Seq<char> {
    match e {
        Error::Auth(_) => "Authentication error: "@,
        Error::Connection(_) => "Connection error: "@,
        Error::FunctionNotFound(_) => "Function not found: "@,
        Error::Serialization(_) => "Serialization error: "@,
        Error::Deserialization(_) => "Deserialization error: "@,
        Error::Grpc(_) => "gRPC error: "@,
        Error::Http(_) => "HTTP error: "@,
        Error::Io(_) => "IO error: "@,
        Error::Other(_) => "Other error: "@,
    }
}

/// The text that an error carries.
pub open spec fn error_detail(e: Error) -> Seq<char> {
    match e {
        Error::Auth(m) => m@,
        Error::Connection(m) => m@,
        Error::FunctionNotFound(m) => m@,
        Error::Serialization(m) => m@,
        Error::Deserialization(m) => m@,
        Error::Grpc(m) => m@,
        Error::Http(m) => m@,
        Error::Io(m) => m@,
        Error::Other(m) => m@,
    }
}

/// The full description of an error, as it is shown to a user.
pub open spec fn error_text(e: Error) -> Seq<char> {
    error_prefix(e) + error_detail(e)
}

impl Error {
    /// The description of the error: the kind of error, then the text it carries.
    pub fn message(&self) -> (r: String)
        ensures
            r@ == error_text(*self),
    {
        let (prefix, detail) = match self {
            Error::Auth(m) => (String::from_str("Authentication error: "), m),
            Error::Connection(m) => (String::from_str("Connection error: "), m),
            Error::FunctionNotFound(m) => (String::from_str("Function not found: "), m),
            Error::Serialization(m) => (String::from_str("Serialization error: "), m),
            Error::Deserialization(m) => (String::from_str("Deserialization error: "), m),
            Error::Grpc(m) => (String::from_str("gRPC error: "), m),
            Error::Http(m) => (String::from_str("HTTP error: "), m),
            Error::Io(m) => (String::from_str("IO error: "), m),
            Error::Other(m) => (String::from_str("Other error: "), m),
        };
        prefix.concat(detail.as_str())
    }

    /// The error for a failure of the CBOR codec, given the codec's own description.
    pub fn from_cbor_failure(description: &str) -> (r: Error)
        ensures
            r matches Error::Serialization(m) && m@ == "CBOR error: "@ + description@,
    {
        Error::Serialization(String::from_str("CBOR error: ").concat(description))
    }

    /// The error for a failure of the transport layer, given its own description.
    pub fn from_transport_failure(description: &str) -> (r: Error)
        ensures
            r matches Error::Connection(m) && m@ == "Transport error: "@ + description@,
    {
        Error::Connection(String::from_str("Transport error: ").concat(description))
    }
}

/// The description of an error ends with the text it carries, after the
/// words that name its kind, which end with a colon and a space.
pub proof fn lemma_message_ends_with_detail(e: Error)
    ensures
        error_detail(e).is_suffix_of(error_text(e)),
        error_prefix(e).len() >= 2,
        error_text(e)[error_prefix(e).len() - 2] == ':',
        error_text(e)[error_prefix(e).len() - 1] == ' ',
{
    reveal_strlit("Authentication error: ");
    reveal_strlit("Connection error: ");
    reveal_strlit("Function not found: ");
    reveal_strlit("Serialization error: ");
    reveal_strlit("Deserialization error: ");
    reveal_strlit("gRPC error: ");
    reveal_strlit("HTTP error: ");
    reveal_strlit("IO error: ");
    reveal_strlit("Other error: ");
    let t = error_text(e);
    assert(t.subrange(t.len() - error_detail(e).len(), t.len() as int) =~= error_detail(e));
}

} // verus!
