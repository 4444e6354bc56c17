//! The error taxonomy of the client.
//!
//! `Error` is every way a request can fail before a well-formed response
//! envelope exists: a base URL that does not parse, a navigation part that
//! cannot stand in a URL (which poisons the chain), a transport failure, or
//! a response body that does not decode.  An application-level error returned
//! by the service is *not* an `Error`: it is data, carried as `ApiError`
//! inside a successful `ApiResponse`.

use vstd::prelude::*;
use vstd::string::StringExecFns;

verus! {

/// Spec-level shape of an `Error`.  Builder views and contracts speak of
/// this, so that a poisoned chain's carried error can be stated exactly.
pub ghost enum ErrorSpec {
    /// The base URL handed to the client did not parse as an absolute URL.
    UrlParse,
    /// A path segment, query key, query value or header value held a
    /// character that cannot stand in a request; `part` is the offender.
    Composition { part: Seq<char> },
    /// A connection or protocol failure while the request was in flight.
    Transport { message: Seq<char> },
    /// The response body did not decode as the expected JSON shape.
    Decode,
}

/// Every failure of composing or executing a request.
#[derive(Debug)]
pub enum Error {
    /// The base URL handed to the client did not parse as an absolute URL.
    UrlParse,
    /// A navigation part held a character that cannot stand in a request.
    Composition { part: String },
    /// A connection or protocol failure, filled in by the embedding code
    /// from its transport's error report.
    Transport { message: String },
    /// The response body did not decode as the expected JSON shape.
    Decode,
}

impl View for Error {
    type V = ErrorSpec;

    open spec fn view(&self) -> ErrorSpec {
        match self {
            Error::UrlParse => ErrorSpec::UrlParse,
            Error::Composition { part } => ErrorSpec::Composition { part: part@ },
            Error::Transport { message } => ErrorSpec::Transport { message: message@ },
            Error::Decode => ErrorSpec::Decode,
        }
    }
}

/// The text `message` renders an error to.
pub open spec fn message_text(e: ErrorSpec) -> Seq<char> {
    match e {
        ErrorSpec::UrlParse => "url parse error: not an absolute URL"@,
        ErrorSpec::Composition { part } => "url composition error: invalid part `"@ + part
            + "`"@,
        ErrorSpec::Transport { message } => "transport error: "@ + message,
        ErrorSpec::Decode => "decode error: body is not the expected JSON shape"@,
    }
}

impl Error {
    /// A human-readable description of the failure.
    pub fn message(&self) -> (m: String)
        ensures
            m@ == message_text(self@),
    {
        match self {
            Error::UrlParse => String::from_str("url parse error: not an absolute URL"),
            Error::Composition { part } => {
                let mut m = String::from_str("url composition error: invalid part `");
                m.append(part.as_str());
                m.append("`");
                m
            },
            Error::Transport { message } => {
                let mut m = String::from_str("transport error: ");
                m.append(message.as_str());
                m
            },
            Error::Decode => String::from_str("decode error: body is not the expected JSON shape"),
        }
    }
}

/// A structured application-level error returned by the service.
#[derive(Debug, Clone, PartialEq, Eq)]
pub struct ApiError {
    pub error: ApiErrorInner,
}

/// The fields of an application-level error: at least a human-readable
/// message; code and details when the service supplies them.
#[derive(Debug, Clone, PartialEq, Eq)]
pub struct ApiErrorInner {
    pub msg: String,
    pub code: String,
    pub details: String,
}

} // verus!
