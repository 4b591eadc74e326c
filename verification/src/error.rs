//! The unified error taxonomy.
//!
//! Every failure mode of the surrounding transport stack — the HTTP call, the
//! streaming socket, text decoding, JSON parsing, the remote API's semantic
//! rejections — is represented by one closed [`Error`] union, so that
//! transport and application code consume a single failure channel.  Each
//! variant wraps the originating lower-layer error value, except the two
//! string-carrying variants ([`Error::Api`] and [`Error::Internal`]), which
//! have no structured lower-layer error object.

use vstd::prelude::*;
use vstd::string::StringExecFns;

use crate::json::Fail;
use reqwest::Error as ReqwestError;
use rustc_serialize::json::DecoderError;
use std::io::Error as IoError;

verus! {

#[verifier::external_type_specification]
#[verifier::external_body]
pub struct ExHttpError(ReqwestError);

#[verifier::external_type_specification]
#[verifier::external_body]
pub struct ExWebSocketError(websocket::result::WebSocketError);

#[verifier::external_type_specification]
#[verifier::external_body]
pub struct ExFromUtf8Error(std::string::FromUtf8Error);

#[verifier::external_type_specification]
#[verifier::external_body]
pub struct ExParserError(rustc_serialize::json::ParserError);

#[verifier::external_type_specification]
#[verifier::external_body]
pub struct ExEncoderError(rustc_serialize::json::EncoderError);

#[verifier::external_type_specification]
#[verifier::external_body]
pub struct ExDecoderError(DecoderError);

#[verifier::external_type_specification]
#[verifier::external_body]
pub struct ExIoError(IoError);

/// A JSON-schema-decode failure: the frame is well-formed JSON but does not
/// have the fields the expected shape requires.
#[derive(Debug)]
pub enum SchemaError {
    /// A required field is absent; carries the field name.
    MissingField(String),
    /// A field has the wrong shape; carries the expected and the found shape.
    Expected { expected: String, found: String },
    /// A union's own discriminant matches no variant; carries the message.
    UnknownVariant(String),
    /// A failure reported by the decoding logic itself; carries the message.
    Application(String),
    /// A structural parse failure surfaced through a schema decode.
    Parse(rustc_serialize::json::ParserError),
    /// The input ended before the expected shape was complete.
    EndOfInput,
}

/// The unified error type: one closed union over every failure origin.
#[derive(Debug)]
pub enum Error {
    /// Http client error
    Http(reqwest::Error),
    /// WebSocket connection error
    WebSocket(websocket::result::WebSocketError),
    /// Error decoding websocket text frame Utf8
    Utf8(std::string::FromUtf8Error),
    /// Error parsing url
    Url(reqwest::Error),
    /// Error decoding Json
    JsonDecode(SchemaError),
    /// Error parsing Json
    JsonParse(rustc_serialize::json::ParserError),
    /// Error encoding Json
    JsonEncode(rustc_serialize::json::EncoderError),
    /// Remote Api error
    Api(String),
    /// Errors that do not fit under the other types
    Internal(String),
}

/// The message prefix of an unknown-discriminant failure.
pub open spec fn unknown_type_prefix() -> Seq<char> {
    "Unknown Message type: "@
}

/// How a schema failure of the decoder shows up as an [`Error`] value.
pub open spec fn fail_matches(f: Fail, e: Error) -> bool {
    match f {
        Fail::Missing(k) => e matches Error::JsonDecode(SchemaError::MissingField(m)) && m@ == k,
        Fail::Mismatch { expected, found } => e matches Error::JsonDecode(
            SchemaError::Expected { expected: x, found: y },
        ) && x@ == expected && y@ == found,
        Fail::UnknownType(t) => e matches Error::JsonDecode(SchemaError::Application(m)) && m@
            == unknown_type_prefix() + t,
        Fail::UnknownVariant(s) => e matches Error::JsonDecode(SchemaError::UnknownVariant(m))
            && m@ == s,
    }
}

/// The concatenation of a literal tag and a rendered detail.
fn tag_plus(tag: &str, rest: &str) -> (r: String)
    ensures
        r@ == tag@ + rest@,
{
    let mut s = tag.to_owned();
    s.append(rest);
    s
}

/// The error for a required field that is absent.
pub fn missing_field(key: &str) -> (e: Error)
    ensures
        fail_matches(Fail::Missing(key@), e),
{
    Error::JsonDecode(SchemaError::MissingField(key.to_owned()))
}

/// The error for a field whose shape is not the expected one.
pub fn shape_mismatch(expected: &str, found: &str) -> (e: Error)
    ensures
        fail_matches(Fail::Mismatch { expected: expected@, found: found@ }, e),
{
    Error::JsonDecode(
        SchemaError::Expected { expected: expected.to_owned(), found: found.to_owned() },
    )
}

/// The error for a frame whose discriminant matches no known event kind.
pub fn unknown_type(ty: &str) -> (e: Error)
    ensures
        fail_matches(Fail::UnknownType(ty@), e),
{
    Error::JsonDecode(SchemaError::Application(tag_plus("Unknown Message type: ", ty)))
}

/// The error for a nested union whose discriminant matches no variant.
pub fn unknown_variant(name: &str) -> (e: Error)
    ensures
        fail_matches(Fail::UnknownVariant(name@), e),
{
    Error::JsonDecode(SchemaError::UnknownVariant(name.to_owned()))
}

/// Relies on `reqwest::Error::source`: a request whose URL failed to parse
/// carries the `url::ParseError` as a nested cause, so walking the cause
/// chain and downcasting detects exactly that sub-case.
#[verifier::external_body]
fn http_cause_is_url_parse(e: &ReqwestError) -> (r: bool) {
    let mut cur: Option<&(dyn std::error::Error + 'static)> = std::error::Error::source(e);
    while let Some(c) = cur {
        if c.is::<url::ParseError>() {
            return true;
        }
        cur = c.source();
    }
    false
}

/// Relies on the `Debug` rendering of `reqwest::Error` for diagnostics.
#[verifier::external_body]
fn debug_http(e: &ReqwestError) -> (r: String) {
    format!("{:?}", e)
}

/// Relies on the `Debug` rendering of `websocket::result::WebSocketError`.
#[verifier::external_body]
fn debug_websocket(e: &websocket::result::WebSocketError) -> (r: String) {
    format!("{:?}", e)
}

/// Relies on the `Debug` rendering of `std::string::FromUtf8Error`.
#[verifier::external_body]
fn debug_utf8(e: &std::string::FromUtf8Error) -> (r: String) {
    format!("{:?}", e)
}

/// Relies on the `Debug` rendering of `rustc_serialize::json::ParserError`.
#[verifier::external_body]
fn debug_parser(e: &rustc_serialize::json::ParserError) -> (r: String) {
    format!("{:?}", e)
}

/// Relies on the `Debug` rendering of `rustc_serialize::json::EncoderError`.
#[verifier::external_body]
fn debug_encoder(e: &rustc_serialize::json::EncoderError) -> (r: String) {
    format!("{:?}", e)
}

/// Relies on the `Debug` rendering of `std::io::Error`.
#[verifier::external_body]
fn debug_io(e: &IoError) -> (r: String) {
    format!("{:?}", e)
}

/// Relies on `rustc_serialize::json::DecoderError`: its five variants are
/// carried over one for one, fields moved unchanged.
#[verifier::external_body]
fn schema_of_decoder(err: DecoderError) -> (r: SchemaError) {
    match err {
        DecoderError::ParseError(p) => SchemaError::Parse(p),
        DecoderError::ExpectedError(a, b) => SchemaError::Expected { expected: a, found: b },
        DecoderError::MissingFieldError(k) => SchemaError::MissingField(k),
        DecoderError::UnknownVariantError(v) => SchemaError::UnknownVariant(v),
        DecoderError::ApplicationError(m) => SchemaError::Application(m),
        DecoderError::EOF => SchemaError::EndOfInput,
    }
}

impl SchemaError {
    /// The human-readable message of a schema failure.
    pub fn message(&self) -> (r: String)
        ensures
            match *self {
                SchemaError::MissingField(ref k) => r@ == "missing field: "@ + k@,
                SchemaError::Expected { ref expected, ref found } => r@ == "expected "@
                    + expected@ + ", found "@ + found@,
                SchemaError::UnknownVariant(ref v) => r@ == "unknown variant: "@ + v@,
                SchemaError::Application(ref m) => r@ == m@,
                SchemaError::Parse(_) => "underlying parse failure: "@.is_prefix_of(r@),
                SchemaError::EndOfInput => r@ == "unexpected end of input"@,
            },
            r@.len() >= self.message_tag().len(),
    {
        match self {
            SchemaError::MissingField(k) => tag_plus("missing field: ", k.as_str()),
            SchemaError::Expected { expected, found } => {
                let head = tag_plus("expected ", expected.as_str());
                let mid = tag_plus(", found ", found.as_str());
                let r = tag_plus(head.as_str(), mid.as_str());
                proof {
                    assert(r@ =~= "expected "@ + expected@ + ", found "@ + found@);
                }
                r
            },
            SchemaError::UnknownVariant(v) => tag_plus("unknown variant: ", v.as_str()),
            SchemaError::Application(m) => m.clone(),
            SchemaError::Parse(p) => {
                let d = debug_parser(p);
                let r = tag_plus("underlying parse failure: ", d.as_str());
                proof {
                    assert("underlying parse failure: "@
                        =~= r@.subrange(0, "underlying parse failure: "@.len() as int));
                }
                r
            },
            SchemaError::EndOfInput => "unexpected end of input".to_owned(),
        }
    }

    /// The part of the message that does not depend on the failing frame.
    pub open spec fn message_tag(&self) -> Seq<char> {
        match *self {
            SchemaError::MissingField(_) => "missing field: "@,
            SchemaError::Expected { .. } => "expected "@,
            SchemaError::UnknownVariant(_) => "unknown variant: "@,
            SchemaError::Application(ref m) => m@,
            SchemaError::Parse(_) => "underlying parse failure: "@,
            SchemaError::EndOfInput => "unexpected end of input"@,
        }
    }
}

/// The exact message of a schema failure, for every variant that does not
/// wrap an opaque lower-layer parse error.
pub open spec fn schema_text(se: SchemaError) -> Seq<char> {
    match se {
        SchemaError::MissingField(k) => "missing field: "@ + k@,
        SchemaError::Expected { expected, found } => "expected "@ + expected@ + ", found "@
            + found@,
        SchemaError::UnknownVariant(v) => "unknown variant: "@ + v@,
        SchemaError::Application(m) => m@,
        SchemaError::Parse(_) => Seq::empty(),
        SchemaError::EndOfInput => "unexpected end of input"@,
    }
}

/// The fixed tag that opens the diagnostic rendering of each error kind.
pub open spec fn display_tag(e: Error) -> Seq<char> {
    match e {
        Error::Http(_) => "Http (reqwest) Error: "@,
        Error::WebSocket(_) => "Websocket Error: "@,
        Error::Utf8(_) => "Utf8 decode Error: "@,
        Error::Url(_) => "Url Error: "@,
        Error::JsonDecode(_) => "Json Decode Error: "@,
        Error::JsonParse(_) => "Json Parse Error: "@,
        Error::JsonEncode(_) => "Json Encode Error: "@,
        Error::Api(_) => "Slack Api Error: "@,
        Error::Internal(_) => "Internal Error: "@,
    }
}

/// Whether an error wraps a structured lower-layer cause.  The two
/// string-carrying variants have none.
pub open spec fn has_cause(e: Error) -> bool {
    !(e matches Error::Api(_)) && !(e matches Error::Internal(_))
}

impl Error {
    /// The diagnostic rendering: the kind's tag followed by the originating
    /// failure's detail.  Never empty.
    pub fn display_string(&self) -> (r: String)
        ensures
            display_tag(*self).is_prefix_of(r@),
            r@.len() > 0,
            (match *self {
                Error::Api(ref s) => r@ == "Slack Api Error: "@ + s@,
                Error::Internal(ref s) => r@ == "Internal Error: "@ + s@,
                Error::JsonDecode(ref se) => !(se matches SchemaError::Parse(_)) ==> r@
                    == "Json Decode Error: "@ + schema_text(*se),
                _ => true,
            }),
    {
        let r = match self {
            Error::Http(e) => tag_plus("Http (reqwest) Error: ", debug_http(e).as_str()),
            Error::WebSocket(e) => tag_plus("Websocket Error: ", debug_websocket(e).as_str()),
            Error::Utf8(e) => tag_plus("Utf8 decode Error: ", debug_utf8(e).as_str()),
            Error::Url(e) => tag_plus("Url Error: ", debug_http(e).as_str()),
            Error::JsonDecode(e) => tag_plus("Json Decode Error: ", e.message().as_str()),
            Error::JsonParse(e) => tag_plus("Json Parse Error: ", debug_parser(e).as_str()),
            Error::JsonEncode(e) => tag_plus("Json Encode Error: ", debug_encoder(e).as_str()),
            Error::Api(s) => tag_plus("Slack Api Error: ", s.as_str()),
            Error::Internal(s) => tag_plus("Internal Error: ", s.as_str()),
        };
        proof {
            reveal_strlit("Http (reqwest) Error: ");
            reveal_strlit("Websocket Error: ");
            reveal_strlit("Utf8 decode Error: ");
            reveal_strlit("Url Error: ");
            reveal_strlit("Json Decode Error: ");
            reveal_strlit("Json Parse Error: ");
            reveal_strlit("Json Encode Error: ");
            reveal_strlit("Slack Api Error: ");
            reveal_strlit("Internal Error: ");
            assert(display_tag(*self)
                =~= r@.subrange(0, display_tag(*self).len() as int));
        }
        r
    }

    /// A short summary: for the two string-carrying variants, the carried
    /// message itself; for the wrapping variants, a fixed summary of the
    /// kind.  The fixed summaries stand in for delegating to the wrapped
    /// error's own deprecated `description`, which today returns nothing
    /// more informative; the full detail lives in [`Error::display_string`].
    pub fn description(&self) -> (r: String)
        ensures
            r@ == description_of(*self),
    {
        match self {
            Error::Http(_) => "http request failed".to_owned(),
            Error::WebSocket(_) => "websocket failure".to_owned(),
            Error::Utf8(_) => "invalid utf-8".to_owned(),
            Error::Url(_) => "url parse failure".to_owned(),
            Error::JsonDecode(_) => "json schema decode failure".to_owned(),
            Error::JsonParse(_) => "json parse failure".to_owned(),
            Error::JsonEncode(_) => "json encode failure".to_owned(),
            Error::Api(s) => s.clone(),
            Error::Internal(s) => s.clone(),
        }
    }

    /// The wrapped lower-layer cause, rendered for diagnostics; `None` exactly
    /// for the two variants that carry a bare string instead of a cause.
    pub fn cause_debug(&self) -> (r: Option<String>)
        ensures
            r is Some <==> has_cause(*self),
    {
        match self {
            Error::Http(e) => Some(debug_http(e)),
            Error::WebSocket(e) => Some(debug_websocket(e)),
            Error::Utf8(e) => Some(debug_utf8(e)),
            Error::Url(e) => Some(debug_http(e)),
            Error::JsonDecode(e) => Some(e.message()),
            Error::JsonParse(e) => Some(debug_parser(e)),
            Error::JsonEncode(e) => Some(debug_encoder(e)),
            Error::Api(_) => None,
            Error::Internal(_) => None,
        }
    }

    /// Routes an HTTP-layer error: one whose nested cause is a URL-parse
    /// failure belongs to the dedicated URL variant, every other one to the
    /// generic HTTP variant.
    pub fn classify_http(err: ReqwestError, cause_is_url_parse: bool) -> (r: Error)
        ensures
            r == (if cause_is_url_parse {
                Error::Url(err)
            } else {
                Error::Http(err)
            }),
    {
        if cause_is_url_parse {
            Error::Url(err)
        } else {
            Error::Http(err)
        }
    }

    /// Converts an HTTP-layer error, inspecting its nested cause to detect a
    /// URL-parse failure.
    pub fn from_http(err: ReqwestError) -> (r: Error)
        ensures
            r == Error::Url(err) || r == Error::Http(err),
            has_cause(r),
    {
        let is_url = http_cause_is_url_parse(&err);
        Error::classify_http(err, is_url)
    }

    /// Converts a local I/O failure, which has no dedicated variant, into the
    /// internal catch-all with the failure's rendering.
    pub fn from_io(err: IoError) -> (r: Error)
        ensures
            r matches Error::Internal(_),
    {
        Error::Internal(debug_io(&err))
    }

    /// Converts a schema failure reported by the external JSON decoding
    /// machinery.
    pub fn from_decoder(err: DecoderError) -> (r: Error)
        ensures
            r matches Error::JsonDecode(_),
    {
        Error::JsonDecode(schema_of_decoder(err))
    }
}

/// The summary returned by [`Error::description`].
pub open spec fn description_of(e: Error) -> Seq<char> {
    match e {
        Error::Http(_) => "http request failed"@,
        Error::WebSocket(_) => "websocket failure"@,
        Error::Utf8(_) => "invalid utf-8"@,
        Error::Url(_) => "url parse failure"@,
        Error::JsonDecode(_) => "json schema decode failure"@,
        Error::JsonParse(_) => "json parse failure"@,
        Error::JsonEncode(_) => "json encode failure"@,
        Error::Api(s) => s@,
        Error::Internal(s) => s@,
    }
}

impl From<websocket::result::WebSocketError> for Error {
    fn from(err: websocket::result::WebSocketError) -> (r: Error)
        ensures
            r == Error::WebSocket(err),
    {
        Error::WebSocket(err)
    }
}

impl vstd::std_specs::convert::FromSpecImpl<websocket::result::WebSocketError> for Error {
    open spec fn obeys_from_spec() -> bool {
        true
    }

    open spec fn from_spec(v: websocket::result::WebSocketError) -> Error {
        Error::WebSocket(v)
    }
}

impl From<std::string::FromUtf8Error> for Error {
    fn from(err: std::string::FromUtf8Error) -> (r: Error)
        ensures
            r == Error::Utf8(err),
    {
        Error::Utf8(err)
    }
}

impl vstd::std_specs::convert::FromSpecImpl<std::string::FromUtf8Error> for Error {
    open spec fn obeys_from_spec() -> bool {
        true
    }

    open spec fn from_spec(v: std::string::FromUtf8Error) -> Error {
        Error::Utf8(v)
    }
}

impl From<rustc_serialize::json::ParserError> for Error {
    fn from(err: rustc_serialize::json::ParserError) -> (r: Error)
        ensures
            r == Error::JsonParse(err),
    {
        Error::JsonParse(err)
    }
}

impl vstd::std_specs::convert::FromSpecImpl<rustc_serialize::json::ParserError> for Error {
    open spec fn obeys_from_spec() -> bool {
        true
    }

    open spec fn from_spec(v: rustc_serialize::json::ParserError) -> Error {
        Error::JsonParse(v)
    }
}

impl From<rustc_serialize::json::EncoderError> for Error {
    fn from(err: rustc_serialize::json::EncoderError) -> (r: Error)
        ensures
            r == Error::JsonEncode(err),
    {
        Error::JsonEncode(err)
    }
}

impl vstd::std_specs::convert::FromSpecImpl<rustc_serialize::json::EncoderError> for Error {
    open spec fn obeys_from_spec() -> bool {
        true
    }

    open spec fn from_spec(v: rustc_serialize::json::EncoderError) -> Error {
        Error::JsonEncode(v)
    }
}

} // verus!
