//! Stable error codes and their default messages.
use vstd::prelude::*;
use crate::text::{join, owned, same_text};

verus! {

/// Error codes shared by all vendors.
pub struct ErrorCodes;

impl ErrorCodes {
    /// A vendor answer or message could not be parsed.
    pub const PARSE_ERROR: &'static str = "PARSE_ERROR";
    /// The streaming transport failed.
    pub const WEBSOCKET_ERROR: &'static str = "WEBSOCKET_ERROR";
    /// A batch job did not finish within the attempt ceiling.
    pub const POLLING_TIMEOUT: &'static str = "POLLING_TIMEOUT";
    /// The vendor reported a failed transcription.
    pub const TRANSCRIPTION_ERROR: &'static str = "TRANSCRIPTION_ERROR";
    /// Connecting timed out.
    pub const CONNECTION_TIMEOUT: &'static str = "CONNECTION_TIMEOUT";
    /// The caller's input was invalid.
    pub const INVALID_INPUT: &'static str = "INVALID_INPUT";
    /// The vendor lacks the capability.
    pub const NOT_SUPPORTED: &'static str = "NOT_SUPPORTED";
    /// No results are available.
    pub const NO_RESULTS: &'static str = "NO_RESULTS";
    /// Anything else.
    pub const UNKNOWN_ERROR: &'static str = "UNKNOWN_ERROR";
}

/// The default message of an error code.
pub open spec fn error_message(code: Seq<char>) -> Seq<char> {
    if code == "PARSE_ERROR"@ {
        "Failed to parse response data"@
    } else if code == "WEBSOCKET_ERROR"@ {
        "WebSocket connection error"@
    } else if code == "POLLING_TIMEOUT"@ {
        "Transcription did not complete within timeout period"@
    } else if code == "TRANSCRIPTION_ERROR"@ {
        "Transcription processing failed"@
    } else if code == "CONNECTION_TIMEOUT"@ {
        "Connection attempt timed out"@
    } else if code == "INVALID_INPUT"@ {
        "Invalid input provided"@
    } else if code == "NOT_SUPPORTED"@ {
        "Operation not supported by this provider"@
    } else if code == "NO_RESULTS"@ {
        "No transcription results available"@
    } else {
        "An unknown error occurred"@
    }
}

/// The default message of an error code.
pub fn get_error_message(code: &str) -> (r: &'static str)
    ensures
        r@ == error_message(code@),
{
    if same_text(code, "PARSE_ERROR") {
        "Failed to parse response data"
    } else if same_text(code, "WEBSOCKET_ERROR") {
        "WebSocket connection error"
    } else if same_text(code, "POLLING_TIMEOUT") {
        "Transcription did not complete within timeout period"
    } else if same_text(code, "TRANSCRIPTION_ERROR") {
        "Transcription processing failed"
    } else if same_text(code, "CONNECTION_TIMEOUT") {
        "Connection attempt timed out"
    } else if same_text(code, "INVALID_INPUT") {
        "Invalid input provided"
    } else if same_text(code, "NOT_SUPPORTED") {
        "Operation not supported by this provider"
    } else if same_text(code, "NO_RESULTS") {
        "No transcription results available"
    } else {
        "An unknown error occurred"
    }
}

/// A standard error object.
#[derive(Debug, Clone, PartialEq, Eq)]
pub struct StandardError {
    pub code: String,
    pub message: String,
    pub status_code: Option<u16>,
    /// Further details, as JSON text.
    pub details: Option<String>,
}

impl StandardError {
    /// An error with the given code, and the given message or else the
    /// code's default one.
    pub fn new(code: &str, custom_message: Option<&str>, details: Option<String>) -> (r: StandardError)
        ensures
            r.code@ == code@,
            custom_message is Some ==> r.message@ == custom_message->0@,
            custom_message is None ==> r.message@ == error_message(code@),
            r.status_code is None,
            r.details == details,
    {
        let message = match custom_message {
            Some(m) => owned(m),
            None => owned(get_error_message(code)),
        };
        StandardError { code: owned(code), message, status_code: None, details }
    }

    /// The same error with an HTTP status code.
    pub fn with_status_code(self, status_code: u16) -> (r: StandardError)
        ensures
            r.code == self.code,
            r.message == self.message,
            r.details == self.details,
            r.status_code == Some(status_code),
    {
        let mut e = self;
        e.status_code = Some(status_code);
        e
    }

    /// The error as `[code] message`.
    pub fn to_text(&self) -> (r: String)
        ensures
            r@ == "["@ + self.code@ + "] "@ + self.message@,
    {
        let t = owned("[");
        let t = join(t, self.code.as_str());
        let t = join(t, "] ");
        join(t, self.message.as_str())
    }
}

} // verus!
