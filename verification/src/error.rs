//! The library's error type and the text each error displays.
use vstd::prelude::*;

verus! {

/// Everything that can go wrong when talking to iTerm2.
///
/// Failures of the transport (WebSocket, I/O, protobuf decoding) are carried
/// as the text their source reported.
#[derive(Debug)]
pub enum Error {
    WebSocket(String),
    Io(String),
    Decode(String),
    /// The server answered with an error string instead of a reply.
    Api(String),
    /// The reply carried a status other than OK.
    Status(String),
    Auth(String),
    ConnectionClosed,
    /// No reply arrived within the given time (seconds and nanoseconds).
    Timeout { secs: u64, nanos: u32 },
    /// The reply was of another kind than the one the request asks for.
    UnexpectedResponse { expected: &'static str },
}

/// Outcome of a library operation.
pub type Result<T> = std::result::Result<T, Error>;

/// An `Error` with its texts taken as character sequences.
pub enum ErrorView {
    WebSocket(Seq<char>),
    Io(Seq<char>),
    Decode(Seq<char>),
    Api(Seq<char>),
    Status(Seq<char>),
    Auth(Seq<char>),
    ConnectionClosed,
    Timeout(u64, u32),
    UnexpectedResponse(Seq<char>),
}

impl View for Error {
    type V = ErrorView;

    open spec fn view(&self) -> ErrorView {
        match self {
            Error::WebSocket(s) => ErrorView::WebSocket(s@),
            Error::Io(s) => ErrorView::Io(s@),
            Error::Decode(s) => ErrorView::Decode(s@),
            Error::Api(s) => ErrorView::Api(s@),
            Error::Status(s) => ErrorView::Status(s@),
            Error::Auth(s) => ErrorView::Auth(s@),
            Error::ConnectionClosed => ErrorView::ConnectionClosed,
            Error::Timeout { secs, nanos } => ErrorView::Timeout(*secs, *nanos),
            Error::UnexpectedResponse { expected } => ErrorView::UnexpectedResponse(expected@),
        }
    }
}

/// What `Debug` prints for the duration of `secs` seconds and `nanos`
/// nanoseconds (for instance `100ms` or `1.5s`).
pub uninterp spec fn duration_debug_text(secs: u64, nanos: u32) -> Seq<char>;

/// Renders a duration as its `Debug` form: std's `Debug` for
/// `std::time::Duration`, applied to the duration that `Duration::new` builds
/// from the two fields (which is only how the value is handed over; with
/// `nanos` below one second `new` carries nothing and cannot panic). The
/// contract claims only that the text depends on `secs` and `nanos` alone.
#[verifier::external_body]
fn duration_debug(secs: u64, nanos: u32) -> (s: String)
    requires
        nanos < 1_000_000_000,
    ensures
        s@ == duration_debug_text(secs, nanos),
{
    format!("{:?}", std::time::Duration::new(secs, nanos))
}

/// The message an error displays.
pub open spec fn error_text(e: ErrorView) -> Seq<char> {
    match e {
        ErrorView::WebSocket(s) => "WebSocket error: "@ + s,
        ErrorView::Io(s) => "I/O error: "@ + s,
        ErrorView::Decode(s) => "Protobuf decode error: "@ + s,
        ErrorView::Api(s) => "API error from server: "@ + s,
        ErrorView::Status(s) => "Non-OK status: "@ + s,
        ErrorView::Auth(s) => "Authentication failed: "@ + s,
        ErrorView::ConnectionClosed => "Connection closed"@,
        ErrorView::Timeout(secs, nanos) => "Request timed out after "@ + duration_debug_text(secs, nanos),
        ErrorView::UnexpectedResponse(expected) => "Unexpected response: expected "@ + expected
            + ", got different submessage"@,
    }
}

impl Error {
    /// The message this error displays.
    pub fn to_string(&self) -> (s: String)
        requires
            self matches Error::Timeout { nanos, .. } ==> nanos < 1_000_000_000,
        ensures
            s@ == error_text(self@),
    {
        match self {
            Error::WebSocket(m) => "WebSocket error: ".to_string().concat(m.as_str()),
            Error::Io(m) => "I/O error: ".to_string().concat(m.as_str()),
            Error::Decode(m) => "Protobuf decode error: ".to_string().concat(m.as_str()),
            Error::Api(m) => "API error from server: ".to_string().concat(m.as_str()),
            Error::Status(m) => "Non-OK status: ".to_string().concat(m.as_str()),
            Error::Auth(m) => "Authentication failed: ".to_string().concat(m.as_str()),
            Error::ConnectionClosed => "Connection closed".to_string(),
            Error::Timeout { secs, nanos } => "Request timed out after ".to_string().concat(
                duration_debug(*secs, *nanos).as_str(),
            ),
            Error::UnexpectedResponse { expected } => "Unexpected response: expected ".to_string().concat(
                expected,
            ).concat(", got different submessage"),
        }
    }
}

} // verus!
