//! The transport codec: requests as method, path and body, and the
//! classification of the driver's replies into a value or an error.

use vstd::prelude::*;
use crate::json::{Json, JsonValue, member, text_member};
use crate::text::{has_prefix, starts_with};

verus! {

/// An error reported by the driver: its error code and its message.
#[derive(Clone, Debug, PartialEq, Eq)]
pub struct WdError {
    /// The WebDriver error code, such as `no such element`.
    pub error: String,
    /// The message from the driver.
    pub message: String,
}

/// The model of a driver-reported error.
pub struct WdErrorView {
    pub error: Seq<char>,
    pub message: Seq<char>,
}

impl View for WdError {
    type V = WdErrorView;

    open spec fn view(&self) -> WdErrorView {
        WdErrorView { error: self.error@, message: self.message@ }
    }
}

/// A failure of the exchange itself, as opposed to an error the driver
/// reported.
#[derive(Clone, Debug, PartialEq, Eq)]
pub enum TransportError {
    /// No reply arrived (the connection failed), with a description.
    Connection(String),
    /// A failure status whose body is neither JSON nor text.
    Status(u16),
    /// A failure status with a text body.
    Text(u16, String),
    /// A failure status with a JSON body that reports no error; the body's
    /// text is kept.
    UnknownErrorBody(u16, String),
    /// The body is not the envelope the protocol defines.
    MalformedBody,
    /// The value has another shape than the operation returns.
    UnexpectedValue,
    /// A binary payload that is not valid base64.
    InvalidBase64,
    /// The request path does not resolve against the driver's base URL.
    InvalidUrl,
}

/// The model of a transport failure.
pub enum TransportErrorView {
    Connection(Seq<char>),
    Status(u16),
    Text(u16, Seq<char>),
    UnknownErrorBody(u16, Seq<char>),
    MalformedBody,
    UnexpectedValue,
    InvalidBase64,
    InvalidUrl,
}

impl View for TransportError {
    type V = TransportErrorView;

    open spec fn view(&self) -> TransportErrorView {
        match self {
            TransportError::Connection(s) => TransportErrorView::Connection(s@),
            TransportError::Status(c) => TransportErrorView::Status(*c),
            TransportError::Text(c, s) => TransportErrorView::Text(*c, s@),
            TransportError::UnknownErrorBody(c, s) => TransportErrorView::UnknownErrorBody(*c, s@),
            TransportError::MalformedBody => TransportErrorView::MalformedBody,
            TransportError::UnexpectedValue => TransportErrorView::UnexpectedValue,
            TransportError::InvalidBase64 => TransportErrorView::InvalidBase64,
            TransportError::InvalidUrl => TransportErrorView::InvalidUrl,
        }
    }
}

/// Every way an operation of this library can fail.
#[derive(Clone, Debug, PartialEq, Eq)]
pub enum Error {
    /// The operation needs an open session and there is none.
    NoActiveSession,
    /// The driver reported an error.
    Protocol(WdError),
    /// The driver refused to create a session.
    SessionCreationFailed(WdError),
    /// The exchange with the driver failed.
    Transport(TransportError),
    /// The driver did not become reachable before the deadline.
    StartupTimeout,
    /// The driver process exited before it became reachable, with its exit
    /// code if it had one.
    ProcessExited(Option<i32>),
    /// No free port was found.
    ResourceExhausted,
}

/// The model of an error.
pub enum ErrorView {
    NoActiveSession,
    Protocol(WdErrorView),
    SessionCreationFailed(WdErrorView),
    Transport(TransportErrorView),
    StartupTimeout,
    ProcessExited(Option<i32>),
    ResourceExhausted,
}

impl View for Error {
    type V = ErrorView;

    open spec fn view(&self) -> ErrorView {
        match self {
            Error::NoActiveSession => ErrorView::NoActiveSession,
            Error::Protocol(e) => ErrorView::Protocol(e@),
            Error::SessionCreationFailed(e) => ErrorView::SessionCreationFailed(e@),
            Error::Transport(t) => ErrorView::Transport(t@),
            Error::StartupTimeout => ErrorView::StartupTimeout,
            Error::ProcessExited(c) => ErrorView::ProcessExited(*c),
            Error::ResourceExhausted => ErrorView::ResourceExhausted,
        }
    }
}

/// The HTTP methods the protocol uses.
#[derive(PartialEq, Eq, Structural, Clone, Copy, Debug)]
pub enum Method {
    Get,
    Post,
    Delete,
}

/// A request to the driver: the method, the path relative to the driver's
/// base URL, and the JSON body, if any.
#[derive(Debug, PartialEq, Eq)]
pub struct Request {
    pub method: Method,
    pub path: String,
    pub body: Option<Json>,
}

/// The model of a request.
pub struct RequestView {
    pub method: Method,
    pub path: Seq<char>,
    pub body: Option<JsonValue>,
}

impl View for Request {
    type V = RequestView;

    open spec fn view(&self) -> RequestView {
        RequestView {
            method: self.method,
            path: self.path@,
            body: match self.body {
                Some(b) => Some(b@),
                None => None,
            },
        }
    }
}

/// A reply from the driver: its status, its content type if it had a
/// readable one, its body as text, and the body as JSON if it parses as
/// JSON.
#[derive(Debug, PartialEq, Eq)]
pub struct Response {
    pub status: u16,
    pub content_type: Option<String>,
    pub text: String,
    pub body: Option<Json>,
}

/// The model of a reply.
pub struct ResponseView {
    pub status: u16,
    pub content_type: Option<Seq<char>>,
    pub text: Seq<char>,
    pub body: Option<JsonValue>,
}

impl View for Response {
    type V = ResponseView;

    open spec fn view(&self) -> ResponseView {
        ResponseView {
            status: self.status,
            content_type: match self.content_type {
                Some(c) => Some(c@),
                None => None,
            },
            text: self.text@,
            body: match self.body {
                Some(b) => Some(b@),
                None => None,
            },
        }
    }
}

/// A status of the success class.
pub open spec fn is_success(status: u16) -> bool {
    200 <= status < 300
}

/// Whether the content type announces a body of the given kind.
pub open spec fn has_media_prefix(content_type: Option<Seq<char>>, prefix: Seq<char>) -> bool {
    match content_type {
        Some(c) => starts_with(c, prefix),
        None => false,
    }
}

/// The code name of a numeric status of the legacy wire protocol.
pub open spec fn legacy_code(status: u64) -> Seq<char> {
    if status == 6 {
        "invalid session id"@
    } else if status == 7 {
        "no such element"@
    } else if status == 8 {
        "no such frame"@
    } else if status == 10 {
        "stale element reference"@
    } else if status == 23 {
        "no such window"@
    } else if status == 33 {
        "session not created"@
    } else {
        "unknown error"@
    }
}

/// The error a body reports in the standard form: a value holding the text
/// members `error` and `message`.
pub open spec fn standard_error(body: JsonValue) -> Option<WdErrorView> {
    match member(body, "value"@) {
        Some(v) => match (text_member(v, "error"@), text_member(v, "message"@)) {
            (Some(e), Some(m)) => Some(WdErrorView { error: e, message: m }),
            _ => None,
        },
        None => None,
    }
}

/// The error a body reports in the legacy form: a numeric `status` other
/// than zero beside the value, whose `message` member is the message.
pub open spec fn legacy_error(body: JsonValue) -> Option<WdErrorView> {
    match member(body, "status"@) {
        Some(JsonValue::Int(n)) => if n == 0 {
            None
        } else {
            let message = match member(body, "value"@) {
                Some(v) => match text_member(v, "message"@) {
                    Some(m) => m,
                    None => Seq::empty(),
                },
                None => Seq::empty(),
            };
            Some(WdErrorView { error: legacy_code(n), message })
        },
        _ => None,
    }
}

/// The error a body reports, in either form.
pub open spec fn reported_error(body: JsonValue) -> Option<WdErrorView> {
    match legacy_error(body) {
        Some(e) => Some(e),
        None => standard_error(body),
    }
}

/// What a reply carries: the value of its envelope, or the error it
/// stands for.
pub open spec fn reply_value(r: ResponseView) -> Result<JsonValue, ErrorView> {
    if is_success(r.status) {
        match r.body {
            Some(b) => match reported_error(b) {
                Some(e) => Err(ErrorView::Protocol(e)),
                None => match member(b, "value"@) {
                    Some(v) => Ok(v),
                    None => Err(ErrorView::Transport(TransportErrorView::MalformedBody)),
                },
            },
            None => Err(ErrorView::Transport(TransportErrorView::MalformedBody)),
        }
    } else if has_media_prefix(r.content_type, "application/json"@) {
        match r.body {
            Some(b) => match reported_error(b) {
                Some(e) => Err(ErrorView::Protocol(e)),
                None => Err(
                    ErrorView::Transport(TransportErrorView::UnknownErrorBody(r.status, r.text)),
                ),
            },
            None => Err(ErrorView::Transport(TransportErrorView::MalformedBody)),
        }
    } else if has_media_prefix(r.content_type, "text/"@) {
        Err(ErrorView::Transport(TransportErrorView::Text(r.status, r.text)))
    } else {
        Err(ErrorView::Transport(TransportErrorView::Status(r.status)))
    }
}

/// The failure class of a decoded value of the wrong shape.
pub open spec fn unexpected() -> ErrorView {
    ErrorView::Transport(TransportErrorView::UnexpectedValue)
}

/// The outcome of decoding a reply with `decode`, which maps a value to
/// the operation's result, or to nothing where the value has another shape.
pub open spec fn decoded<T>(r: ResponseView, decode: spec_fn(JsonValue) -> Option<T>) -> Result<T, ErrorView> {
    match reply_value(r) {
        Ok(v) => match decode(v) {
            Some(x) => Ok(x),
            None => Err(unexpected()),
        },
        Err(e) => Err(e),
    }
}

fn legacy_code_text(status: u64) -> (r: &'static str)
    ensures
        r@ == legacy_code(status),
{
    if status == 6 {
        "invalid session id"
    } else if status == 7 {
        "no such element"
    } else if status == 8 {
        "no such frame"
    } else if status == 10 {
        "stale element reference"
    } else if status == 23 {
        "no such window"
    } else if status == 33 {
        "session not created"
    } else {
        "unknown error"
    }
}

/// The error that a reply body reports, in the standard or the legacy form.
pub fn parse_error(body: &Json) -> (r: Option<WdError>)
    ensures
        match r {
            Some(e) => reported_error(body@) == Some(e@),
            None => reported_error(body@) is None,
        },
{
    match body.get("status") {
        Some(Json::Int(n)) => if *n != 0 {
            let message = match body.get("value") {
                Some(v) => match v.get_text("message") {
                    Some(m) => m.clone(),
                    None => String::new(),
                },
                None => String::new(),
            };
            return Some(WdError { error: legacy_code_text(*n).to_owned(), message });
        },
        _ => {},
    }
    match body.get("value") {
        Some(v) => match (v.get_text("error"), v.get_text("message")) {
            (Some(e), Some(m)) => Some(WdError { error: e.clone(), message: m.clone() }),
            _ => None,
        },
        None => None,
    }
}

/// The value a reply carries, or the error it stands for.
pub fn open_envelope(resp: &Response) -> (r: Result<&Json, Error>)
    ensures
        match r {
            Ok(v) => reply_value(resp@) == Ok::<JsonValue, ErrorView>(v@),
            Err(e) => reply_value(resp@) == Err::<JsonValue, ErrorView>(e@),
        },
{
    let is_json = match &resp.content_type {
        Some(c) => has_prefix(c.as_str(), "application/json"),
        None => false,
    };
    let is_text = match &resp.content_type {
        Some(c) => has_prefix(c.as_str(), "text/"),
        None => false,
    };
    if 200 <= resp.status && resp.status < 300 {
        match &resp.body {
            Some(b) => match parse_error(b) {
                Some(e) => Err(Error::Protocol(e)),
                None => match b.get("value") {
                    Some(v) => Ok(v),
                    None => Err(Error::Transport(TransportError::MalformedBody)),
                },
            },
            None => Err(Error::Transport(TransportError::MalformedBody)),
        }
    } else if is_json {
        match &resp.body {
            Some(b) => match parse_error(b) {
                Some(e) => Err(Error::Protocol(e)),
                None => Err(
                    Error::Transport(TransportError::UnknownErrorBody(resp.status, resp.text.clone())),
                ),
            },
            None => Err(Error::Transport(TransportError::MalformedBody)),
        }
    } else if is_text {
        Err(Error::Transport(TransportError::Text(resp.status, resp.text.clone())))
    } else {
        Err(Error::Transport(TransportError::Status(resp.status)))
    }
}

/// The unit result: a null value.
pub open spec fn unit_of(v: JsonValue) -> Option<()> {
    if v == JsonValue::Null {
        Some(())
    } else {
        None
    }
}

/// A text result: a string value.
pub open spec fn text_of(v: JsonValue) -> Option<Seq<char>> {
    match v {
        JsonValue::Str(s) => Some(s),
        _ => None,
    }
}

/// An optional text result: a string, or null for none.
pub open spec fn optional_text_of(v: JsonValue) -> Option<Option<Seq<char>>> {
    match v {
        JsonValue::Null => Some(None),
        JsonValue::Str(s) => Some(Some(s)),
        _ => None,
    }
}

/// The bytes that base64 text (standard alphabet, with padding) stands for,
/// or nothing where the text is not valid base64.
pub uninterp spec fn base64_decoding(text: Seq<char>) -> Option<Seq<u8>>;

/// A binary result: base64 text, decoded.
pub open spec fn bytes_reply(r: ResponseView) -> Result<Seq<u8>, ErrorView> {
    match decoded(r, |v: JsonValue| text_of(v)) {
        Ok(t) => match base64_decoding(t) {
            Some(b) => Ok(b),
            None => Err(ErrorView::Transport(TransportErrorView::InvalidBase64)),
        },
        Err(e) => Err(e),
    }
}

/// The error of base64::decode, carried opaquely.
#[verifier::external_type_specification]
#[verifier::external_body]
pub struct ExDecodeError(base64::DecodeError);

/// Relies on base64::decode (standard alphabet, with padding): whether it
/// succeeds and what it returns depend on the text alone.
#[verifier::external_body]
fn decode_base64(text: &str) -> (r: Result<Vec<u8>, base64::DecodeError>)
    ensures
        match r {
            Ok(b) => base64_decoding(text@) == Some(b@),
            Err(_) => base64_decoding(text@) is None,
        },
{
    base64::decode(text)
}

fn unexpected_value() -> (e: Error)
    ensures
        e@ == unexpected(),
{
    Error::Transport(TransportError::UnexpectedValue)
}

/// Decodes a reply whose value is null.
pub fn read_unit(resp: &Response) -> (r: Result<(), Error>)
    ensures
        match r {
            Ok(_) => decoded(resp@, |v: JsonValue| unit_of(v)) is Ok,
            Err(e) => decoded(resp@, |v: JsonValue| unit_of(v)) == Err::<(), ErrorView>(e@),
        },
{
    match open_envelope(resp)? {
        Json::Null => Ok(()),
        _ => Err(unexpected_value()),
    }
}

/// Decodes a reply whose value is a string.
pub fn read_text(resp: &Response) -> (r: Result<String, Error>)
    ensures
        match r {
            Ok(s) => decoded(resp@, |v: JsonValue| text_of(v)) == Ok::<Seq<char>, ErrorView>(s@),
            Err(e) => decoded(resp@, |v: JsonValue| text_of(v)) == Err::<Seq<char>, ErrorView>(e@),
        },
{
    match open_envelope(resp)? {
        Json::Str(s) => Ok(s.clone()),
        _ => Err(unexpected_value()),
    }
}

/// Decodes a reply whose value is a string, or null for none.
pub fn read_optional_text(resp: &Response) -> (r: Result<Option<String>, Error>)
    ensures
        match r {
            Ok(Some(s)) => decoded(resp@, |v: JsonValue| optional_text_of(v)) == Ok::<Option<Seq<char>>, ErrorView>(Some(s@)),
            Ok(None) => decoded(resp@, |v: JsonValue| optional_text_of(v)) == Ok::<Option<Seq<char>>, ErrorView>(None),
            Err(e) => decoded(resp@, |v: JsonValue| optional_text_of(v)) == Err::<Option<Seq<char>>, ErrorView>(e@),
        },
{
    match open_envelope(resp)? {
        Json::Null => Ok(None),
        Json::Str(s) => Ok(Some(s.clone())),
        _ => Err(unexpected_value()),
    }
}

/// Decodes a reply whose value is base64 text into the bytes it encodes.
pub fn read_bytes(resp: &Response) -> (r: Result<Vec<u8>, Error>)
    ensures
        match r {
            Ok(b) => bytes_reply(resp@) == Ok::<Seq<u8>, ErrorView>(b@),
            Err(e) => bytes_reply(resp@) == Err::<Seq<u8>, ErrorView>(e@),
        },
{
    let text = read_text(resp)?;
    match decode_base64(text.as_str()) {
        Ok(b) => Ok(b),
        Err(_) => Err(Error::Transport(TransportError::InvalidBase64)),
    }
}

/// The text of the URL that `input` resolves to against the absolute URL
/// that `base` parses to, or nothing where either step fails.
pub uninterp spec fn joined_url(base: Seq<char>, input: Seq<char>) -> Option<Seq<char>>;

/// Relies on url::Url::parse and url::Url::join: whether the resolution
/// succeeds and the URL it gives depend on the two texts alone.
#[verifier::external_body]
fn resolve(base: &str, input: &str) -> (r: Option<String>)
    ensures
        match r {
            Some(u) => joined_url(base@, input@) == Some(u@),
            None => joined_url(base@, input@) is None,
        },
{
    match url::Url::parse(base) {
        Ok(b) => b.join(input).ok().map(String::from),
        Err(_) => None,
    }
}

/// The absolute URL of a request path on the driver whose base URL is
/// `base`.
pub fn request_url(base: &str, path: &str) -> (r: Result<String, Error>)
    ensures
        match r {
            Ok(u) => joined_url(base@, path@) == Some(u@),
            Err(e) => joined_url(base@, path@) is None && e@ == ErrorView::Transport(
                TransportErrorView::InvalidUrl,
            ),
        },
{
    match resolve(base, path) {
        Some(u) => Ok(u),
        None => Err(Error::Transport(TransportError::InvalidUrl)),
    }
}

} // verus!
