use vstd::prelude::*;
use vstd::string::StringExecFns;

verus! {

/// The failure taxonomy of an invocation: every error a caller can see is one
/// of these three kinds, each carrying a human-readable message.
///
/// `FetchError` covers transport-level failures and response-decoding
/// failures; `HttpError` carries the status text of a non-2xx response;
/// `RelayError` reports the explicit relay failure signal sent by the
/// function-delivery layer.
#[derive(Debug)]
pub enum FunctionsError {
    FetchError(String),
    HttpError(String),
    RelayError(String),
}

impl FunctionsError {
    /// The rendering of an error: the kind's name, a colon, and the message.
    pub open spec fn spec_message(&self) -> Seq<char> {
        match self {
            FunctionsError::FetchError(m) => "FetchError: "@ + m@,
            FunctionsError::HttpError(m) => "HttpError: "@ + m@,
            FunctionsError::RelayError(m) => "RelayError: "@ + m@,
        }
    }

    /// Renders the error for reporting, kind first, then the message.
    pub fn message(&self) -> (s: String)
        ensures
            s@ == self.spec_message(),
    {
        match self {
            FunctionsError::FetchError(m) => String::from_str("FetchError: ").concat(m.as_str()),
            FunctionsError::HttpError(m) => String::from_str("HttpError: ").concat(m.as_str()),
            FunctionsError::RelayError(m) => String::from_str("RelayError: ").concat(m.as_str()),
        }
    }
}

/// Constructor shorthand for the transport/decoding error kind.
pub struct FunctionsFetchError;

impl FunctionsFetchError {
    pub fn new(context: String) -> (e: FunctionsError)
        ensures
            e == FunctionsError::FetchError(context),
    {
        FunctionsError::FetchError(context)
    }
}

/// Constructor shorthand for the relay error kind.
pub struct FunctionsRelayError;

impl FunctionsRelayError {
    pub fn new(context: String) -> (e: FunctionsError)
        ensures
            e == FunctionsError::RelayError(context),
    {
        FunctionsError::RelayError(context)
    }
}

/// Constructor shorthand for the HTTP status error kind.
pub struct FunctionsHttpError;

impl FunctionsHttpError {
    pub fn new(context: String) -> (e: FunctionsError)
        ensures
            e == FunctionsError::HttpError(context),
    {
        FunctionsError::HttpError(context)
    }
}

} // verus!
