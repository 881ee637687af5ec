//! Fetching the feed: the classification of every failure of the request,
//! of the response head and of the response body into one [`Error`].
use vstd::prelude::*;
use vstd::utf8::{decode_utf8, valid_utf8};

use crate::finnkino::{absent, titled, Error, ErrorBuilder, ErrorView, TheatreArea, TheatreAreas};

verus! {

/// The feed's location.
pub const FEED_URL: &'static str = "https://www.finnkino.fi/xml/TheatreAreas";

/// The media types asked for in the `Accept` header.
pub const ACCEPT_XML: &'static str = "text/xml, application/xml";

/// Where and how long to fetch: handed to whatever performs the request.
pub struct FetchConfig {
    pub url: String,
    pub timeout_secs: u64,
}

impl FetchConfig {
    /// The feed's own location, with a timeout of five seconds.
    pub fn feed() -> (r: FetchConfig)
        ensures
            r.url@ == FEED_URL@,
            r.timeout_secs == 5,
    {
        FetchConfig { url: FEED_URL.to_owned(), timeout_secs: 5 }
    }
}

/// Why a request could not be sent, or its response head not read.
/// Each payload is a rendering of the underlying cause.
pub enum TransportFailure {
    InvalidUrl(String),
    ConnectFailed(String),
    SendFailed(String),
    ResponseParseFailed(String),
    Http(String),
    Http2(String),
    Timeout,
    TunnelNotSupported,
    Body(String),
    Other(String),
}

/// The error that stands for a transport failure.
pub open spec fn transport_view(f: TransportFailure) -> ErrorView {
    match f {
        TransportFailure::InvalidUrl(d) => titled("Invalid URL"@, d@),
        TransportFailure::ConnectFailed(d) => titled("Failed to connect to host"@, d@),
        TransportFailure::SendFailed(d) => titled("Error sending request"@, d@),
        TransportFailure::ResponseParseFailed(d) => titled("Error parsing response"@, d@),
        TransportFailure::Http(d) => titled("Http error"@, d@),
        TransportFailure::Http2(d) => titled("Http2 error"@, d@),
        TransportFailure::Timeout => titled("Response took too long"@, "Timeout"@),
        TransportFailure::TunnelNotSupported => titled(
            "Tunnels are not supported for HTTP/2 connection"@,
            "TunnelNotSupported"@,
        ),
        TransportFailure::Body(d) => titled("Error sending request body"@, d@),
        TransportFailure::Other(d) => titled("Other error"@, d@),
    }
}

/// Classifies a failure to send the request.
pub fn transport_error(f: TransportFailure) -> (r: Error)
    ensures
        r@ == transport_view(f),
{
    let b = ErrorBuilder::default();
    let b = match f {
        TransportFailure::InvalidUrl(d) => b.title("Invalid URL").detail(d.as_str()),
        TransportFailure::ConnectFailed(d) => b.title("Failed to connect to host").detail(d.as_str()),
        TransportFailure::SendFailed(d) => b.title("Error sending request").detail(d.as_str()),
        TransportFailure::ResponseParseFailed(d) => b.title("Error parsing response").detail(d.as_str()),
        TransportFailure::Http(d) => b.title("Http error").detail(d.as_str()),
        TransportFailure::Http2(d) => b.title("Http2 error").detail(d.as_str()),
        TransportFailure::Timeout => b.title("Response took too long").detail("Timeout"),
        TransportFailure::TunnelNotSupported => b.title(
            "Tunnels are not supported for HTTP/2 connection",
        ).detail("TunnelNotSupported"),
        TransportFailure::Body(d) => b.title("Error sending request body").detail(d.as_str()),
        TransportFailure::Other(d) => b.title("Other error").detail(d.as_str()),
    };
    b.build()
}

/// Why the body of a successful response could not be read.
pub enum PayloadFailure {
    /// The body ended early; with the kind and message of the I/O error
    /// behind it, when there was one.
    Incomplete(Option<(String, String)>),
    EncodingCorrupted,
    Overflow,
    UnknownLength,
    Http2Payload(String),
    Io(String),
    Other(String),
}

/// The error that stands for a payload failure.
pub open spec fn payload_view(f: PayloadFailure) -> ErrorView {
    match f {
        PayloadFailure::Incomplete(Some((kind, message))) => ErrorView {
            status: None,
            code: Some(kind@),
            title: Some("Incomplete"@),
            detail: Some(message@),
        },
        PayloadFailure::Incomplete(None) => ErrorView { title: Some("Incomplete"@), ..absent() },
        PayloadFailure::EncodingCorrupted => titled("Encoding corrupted"@, "EncodingCorrupted"@),
        PayloadFailure::Overflow => titled("Overflow"@, "Overflow"@),
        PayloadFailure::UnknownLength => titled("Unknown length"@, "UnknownLength"@),
        PayloadFailure::Http2Payload(d) => titled("Http2 payload error"@, d@),
        PayloadFailure::Io(d) => titled("IO error"@, d@),
        PayloadFailure::Other(d) => titled("Other error"@, d@),
    }
}

/// Classifies a failure to read the response body.
pub fn payload_error(f: PayloadFailure) -> (r: Error)
    ensures
        r@ == payload_view(f),
{
    let b = ErrorBuilder::default();
    let b = match f {
        PayloadFailure::Incomplete(Some((kind, message))) => b.title("Incomplete").code(
            kind.as_str(),
        ).detail(message.as_str()),
        PayloadFailure::Incomplete(None) => b.title("Incomplete"),
        PayloadFailure::EncodingCorrupted => b.title("Encoding corrupted").detail("EncodingCorrupted"),
        PayloadFailure::Overflow => b.title("Overflow").detail("Overflow"),
        PayloadFailure::UnknownLength => b.title("Unknown length").detail("UnknownLength"),
        PayloadFailure::Http2Payload(d) => b.title("Http2 payload error").detail(d.as_str()),
        PayloadFailure::Io(d) => b.title("IO error").detail(d.as_str()),
        PayloadFailure::Other(d) => b.title("Other error").detail(d.as_str()),
    };
    b.build()
}

/// A status code in the range that HTTP allows.
pub open spec fn valid_status(code: u16) -> bool {
    100 <= code <= 999
}

/// A 2xx status.
pub open spec fn success_status(code: u16) -> bool {
    200 <= code <= 299
}

/// Whether a response with this status carries the feed.
pub fn is_success(code: u16) -> (r: bool)
    ensures
        r == success_status(code),
{
    200 <= code && code <= 299
}

/// The character of a decimal digit.
pub open spec fn digit_char(d: int) -> char {
    "0123456789"@[d]
}

/// A status code written as its three decimal digits.
pub open spec fn status_digits(code: u16) -> Seq<char> {
    seq![
        digit_char(code as int / 100),
        digit_char((code as int / 10) % 10),
        digit_char(code as int % 10),
    ]
}

fn digit_str(d: u16) -> (r: &'static str)
    requires
        d < 10,
    ensures
        r@ == seq![digit_char(d as int)],
{
    proof {
        reveal_strlit("0123456789");
        reveal_strlit("0");
        reveal_strlit("1");
        reveal_strlit("2");
        reveal_strlit("3");
        reveal_strlit("4");
        reveal_strlit("5");
        reveal_strlit("6");
        reveal_strlit("7");
        reveal_strlit("8");
        reveal_strlit("9");
    }
    let r = match d {
        0 => "0",
        1 => "1",
        2 => "2",
        3 => "3",
        4 => "4",
        5 => "5",
        6 => "6",
        7 => "7",
        8 => "8",
        _ => "9",
    };
    assert(r@ =~= seq![digit_char(d as int)]);
    r
}

/// The status code as text, as it goes in an error's `status`.
pub fn status_text(code: u16) -> (r: String)
    requires
        valid_status(code),
    ensures
        r@ == status_digits(code),
{
    let mut s = String::new();
    s.append(digit_str(code / 100));
    s.append(digit_str((code / 10) % 10));
    s.append(digit_str(code % 10));
    assert(s@ =~= status_digits(code));
    s
}

/// The canonical reason phrase of a status code, if HTTP gives it one.
pub uninterp spec fn canonical_reason_of(code: u16) -> Option<Seq<char>>;

/// Relies on actix_http::StatusCode::from_u16 (which accepts 100 to 999) and
/// StatusCode::canonical_reason: the phrase depends on the code alone.
#[verifier::external_body]
fn canonical_reason(code: u16) -> (r: Option<&'static str>)
    requires
        valid_status(code),
    ensures
        match r {
            Some(p) => canonical_reason_of(code) == Some(p@),
            None => canonical_reason_of(code) is None,
        },
{
    match actix_http::StatusCode::from_u16(code) {
        Ok(status) => status.canonical_reason(),
        Err(_) => None,
    }
}

/// The error for a response whose status is not a success, given the
/// status's reason phrase if it has one.
pub open spec fn status_view(code: u16, reason: Option<Seq<char>>) -> ErrorView {
    match reason {
        Some(p) => ErrorView {
            status: Some(status_digits(code)),
            code: None,
            title: Some(p),
            detail: None,
        },
        None => ErrorView {
            status: Some(status_digits(code)),
            code: None,
            title: Some("Unknown response status"@),
            detail: Some(status_digits(code)),
        },
    }
}

/// Builds the error for an unsuccessful status from its reason phrase.
pub fn status_error_with_reason(code: u16, reason: Option<&str>) -> (r: Error)
    requires
        valid_status(code),
    ensures
        r@ == status_view(
            code,
            match reason {
                Some(p) => Some(p@),
                None => None,
            },
        ),
{
    let status = status_text(code);
    match reason {
        Some(p) => ErrorBuilder::default().status(status.as_str()).title(p).build(),
        None => ErrorBuilder::default().status(status.as_str()).title(
            "Unknown response status",
        ).detail(status.as_str()).build(),
    }
}

/// Decides on a response head: `None` where the status is a success and the
/// body is to be read, else the error that ends the fetch.
pub fn check_status(code: u16) -> (r: Option<Error>)
    requires
        valid_status(code),
    ensures
        r is None <==> success_status(code),
        r matches Some(e) ==> e@ == status_view(code, canonical_reason_of(code)),
{
    if is_success(code) {
        None
    } else {
        Some(status_error_with_reason(code, canonical_reason(code)))
    }
}

/// What the UTF-8 decoder reports of bytes that are not UTF-8.
pub uninterp spec fn utf8_error_text(b: Seq<u8>) -> Seq<char>;

/// Relies on String::from_utf8, and on the `Display` of its error: the
/// message depends on the bytes alone.
#[verifier::external_body]
fn from_utf8(b: Vec<u8>) -> (r: Result<String, String>)
    ensures
        r is Ok <==> valid_utf8(b@),
        r matches Ok(s) ==> s@ == decode_utf8(b@),
        r matches Err(m) ==> m@ == utf8_error_text(b@),
{
    match String::from_utf8(b) {
        Ok(s) => Ok(s),
        Err(e) => Err(e.to_string()),
    }
}

/// Turns the outcome of UTF-8 decoding into the feed's text or its error.
pub fn text_or_error(decoded: Result<String, String>) -> (r: Result<String, Error>)
    ensures
        decoded matches Ok(s) ==> r matches Ok(t) && t@ == s@,
        decoded matches Err(m) ==> r matches Err(e) && e@ == titled("Failed to parse XML"@, m@),
{
    match decoded {
        Ok(s) => Ok(s),
        Err(m) => Err(ErrorBuilder::default().title("Failed to parse XML").detail(m.as_str()).build()),
    }
}

/// Reads the response body as UTF-8 text.
pub fn body_text(body: Vec<u8>) -> (r: Result<String, Error>)
    ensures
        r is Ok <==> valid_utf8(body@),
        r matches Ok(s) ==> s@ == decode_utf8(body@),
        r matches Err(e) ==> e@ == titled("Failed to parse XML"@, utf8_error_text(body@)),
{
    text_or_error(from_utf8(body))
}

/// Ends the pipeline on the outcome of parsing the feed's XML: the entries
/// as they are, or the parser's error.
pub fn decoded_areas(parsed: Result<TheatreAreas, String>) -> (r: Result<Vec<TheatreArea>, Error>)
    ensures
        parsed matches Ok(a) ==> r matches Ok(v) && v@ == a.theatre_areas@,
        parsed matches Err(d) ==> r matches Err(e) && e@ == titled("Failed to serialize XML"@, d@),
{
    match parsed {
        Ok(areas) => Ok(areas.into_areas()),
        Err(d) => Err(ErrorBuilder::default().title("Failed to serialize XML").detail(d.as_str()).build()),
    }
}

} // verus!
