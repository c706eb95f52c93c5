//! The session protocol client: the values the protocol speaks of, the
//! request of every session operation, and the decoding of their replies.

use vstd::prelude::*;
use crate::json::{Json, JsonValue, member, optional_view, text_member};
use crate::text::{path_text, segments_path};
use crate::wire::{
    decoded, has_media_prefix, is_success, joined_url, open_envelope, optional_text_of,
    reply_value, reported_error, request_url, text_of, unexpected, Error, ErrorView, Method,
    Request, RequestView, Response, ResponseView, TransportError, TransportErrorView, WdErrorView,
};

verus! {

/// The member name under which the standard protocol carries an element
/// reference.
pub const ELEMENT_KEY: &'static str = "element-6066-11e4-a52e-4f735466cecf";

/// The member name under which the legacy protocol carries an element
/// reference.
pub const LEGACY_ELEMENT_KEY: &'static str = "ELEMENT";

/// A selector for finding elements within a page: a location strategy and
/// an expression.
#[derive(Clone, Debug, PartialEq, Eq)]
pub struct By {
    using: String,
    value: String,
}

impl View for By {
    type V = (Seq<char>, Seq<char>);

    closed spec fn view(&self) -> (Seq<char>, Seq<char>) {
        (self.using@, self.value@)
    }
}

impl By {
    /// A selector for elements matching a CSS expression.
    pub fn css(expr: &str) -> (r: By)
        ensures
            r@ == ("css selector"@, expr@),
    {
        By { using: "css selector".to_owned(), value: expr.to_owned() }
    }

    /// A selector for links whose text is the given text.
    pub fn link_text(expr: &str) -> (r: By)
        ensures
            r@ == ("link text"@, expr@),
    {
        By { using: "link text".to_owned(), value: expr.to_owned() }
    }

    /// A selector for links whose text contains the given text.
    pub fn partial_link_text(expr: &str) -> (r: By)
        ensures
            r@ == ("partial link text"@, expr@),
    {
        By { using: "partial link text".to_owned(), value: expr.to_owned() }
    }

    /// A selector for elements with the given tag name.
    pub fn tag_name(expr: &str) -> (r: By)
        ensures
            r@ == ("tag name"@, expr@),
    {
        By { using: "tag name".to_owned(), value: expr.to_owned() }
    }

    /// A selector for elements matching an XPath expression.
    pub fn xpath(expr: &str) -> (r: By)
        ensures
            r@ == ("xpath"@, expr@),
    {
        By { using: "xpath".to_owned(), value: expr.to_owned() }
    }

    /// The selector as a request body.
    pub fn to_json(&self) -> (r: Json)
        ensures
            r@ == by_json(self@),
    {
        Json::object2(
            "using",
            Json::text(self.using.as_str()),
            "value",
            Json::text(self.value.as_str()),
        )
    }
}

/// The request body of a selector.
pub open spec fn by_json(by: (Seq<char>, Seq<char>)) -> JsonValue {
    JsonValue::Object(seq![("using"@, JsonValue::Str(by.0)), ("value"@, JsonValue::Str(by.1))])
}

/// A reference to an element of the current page.
#[derive(Clone, Debug, PartialEq, Eq)]
pub struct Element {
    id: String,
}

impl View for Element {
    type V = Seq<char>;

    closed spec fn view(&self) -> Seq<char> {
        self.id@
    }
}

/// The element reference a value holds: under the standard member name,
/// or else under the legacy one.
pub open spec fn element_of(v: JsonValue) -> Option<Seq<char>> {
    match text_member(v, ELEMENT_KEY@) {
        Some(id) => Some(id),
        None => text_member(v, LEGACY_ELEMENT_KEY@),
    }
}

/// The element references an array holds, if each of its items is one.
pub open spec fn elements_of(v: JsonValue) -> Option<Seq<Seq<char>>> {
    match v {
        JsonValue::Array(items) => if forall|i: int|
            0 <= i < items.len() ==> (#[trigger] element_of(items[i])) is Some {
            Some(items.map_values(|x: JsonValue| element_of(x)->Some_0))
        } else {
            None
        },
        _ => None,
    }
}

/// An element reference as the protocol writes it: always under the
/// standard member name.
pub open spec fn element_json(id: Seq<char>) -> JsonValue {
    JsonValue::Object(seq![(ELEMENT_KEY@, JsonValue::Str(id))])
}

impl Element {
    /// The element with the given reference.
    pub fn new(id: String) -> (r: Element)
        ensures
            r@ == id@,
    {
        Element { id }
    }

    /// The element's reference.
    pub fn id(&self) -> (r: &str)
        ensures
            r@ == self@,
    {
        self.id.as_str()
    }

    /// The element as a request body.
    pub fn to_json(&self) -> (r: Json)
        ensures
            r@ == element_json(self@),
    {
        Json::object1(ELEMENT_KEY, Json::text(self.id.as_str()))
    }

    /// The element a value refers to, under either member name.
    pub fn from_json(v: &Json) -> (r: Result<Element, Error>)
        ensures
            match r {
                Ok(e) => element_of(v@) == Some(e@),
                Err(e) => element_of(v@) is None && e@ == unexpected(),
            },
    {
        match v.get_text(ELEMENT_KEY) {
            Some(id) => Ok(Element { id: id.clone() }),
            None => match v.get_text(LEGACY_ELEMENT_KEY) {
                Some(id) => Ok(Element { id: id.clone() }),
                None => Err(Error::Transport(TransportError::UnexpectedValue)),
            },
        }
    }

    /// The elements an array of references refers to.
    pub fn list_from_json(v: &Json) -> (r: Result<Vec<Element>, Error>)
        ensures
            match r {
                Ok(es) => elements_of(v@) == Some(es@.map_values(|e: Element| e@)),
                Err(e) => elements_of(v@) is None && e@ == unexpected(),
            },
    {
        match v {
            Json::Array(items) => {
                let ghost all = v@->Array_0;
                let mut out: Vec<Element> = Vec::new();
                let mut i: usize = 0;
                while i < items.len()
                    invariant
                        *v == Json::Array(*items),
                        all == v@->Array_0,
                        all.len() == items@.len(),
                        i <= items@.len(),
                        out@.len() == i,
                        forall|j: int| 0 <= j < i ==> element_of(#[trigger] all[j]) == Some(out@[j]@),
                    decreases items@.len() - i,
                {
                    assert(all[i as int] == items@[i as int]@);
                    match Element::from_json(&items[i]) {
                        Ok(e) => out.push(e),
                        Err(e) => {
                            assert(element_of(all[i as int]) is None);
                            return Err(e);
                        },
                    }
                    i = i + 1;
                }
                assert(all.map_values(|x: JsonValue| element_of(x)->Some_0) =~= out@.map_values(
                    |e: Element| e@,
                ));
                Ok(out)
            },
            _ => Err(Error::Transport(TransportError::UnexpectedValue)),
        }
    }
}

/// The handle of a browser window or tab.
#[derive(Clone, Debug, PartialEq, Eq)]
pub struct Window {
    handle: String,
}

impl View for Window {
    type V = Seq<char>;

    closed spec fn view(&self) -> Seq<char> {
        self.handle@
    }
}

/// The window handles an array holds, if each of its items is a string.
pub open spec fn windows_of(v: JsonValue) -> Option<Seq<Seq<char>>> {
    match v {
        JsonValue::Array(items) => if forall|i: int|
            0 <= i < items.len() ==> (#[trigger] text_of(items[i])) is Some {
            Some(items.map_values(|x: JsonValue| text_of(x)->Some_0))
        } else {
            None
        },
        _ => None,
    }
}

impl Window {
    /// The window with the given handle.
    pub fn new(handle: String) -> (r: Window)
        ensures
            r@ == handle@,
    {
        Window { handle }
    }

    /// The window's handle.
    pub fn handle(&self) -> (r: &str)
        ensures
            r@ == self@,
    {
        self.handle.as_str()
    }

    /// Whether two handles name the same window.
    pub fn same(&self, other: &Window) -> (r: bool)
        ensures
            r == (self@ == other@),
    {
        self.handle == other.handle
    }

    /// The window a string value names.
    pub fn from_json(v: &Json) -> (r: Result<Window, Error>)
        ensures
            match r {
                Ok(w) => text_of(v@) == Some(w@),
                Err(e) => text_of(v@) is None && e@ == unexpected(),
            },
    {
        match v {
            Json::Str(s) => Ok(Window { handle: s.clone() }),
            _ => Err(Error::Transport(TransportError::UnexpectedValue)),
        }
    }

    /// The windows an array of handles names.
    pub fn list_from_json(v: &Json) -> (r: Result<Vec<Window>, Error>)
        ensures
            match r {
                Ok(ws) => windows_of(v@) == Some(ws@.map_values(|w: Window| w@)),
                Err(e) => windows_of(v@) is None && e@ == unexpected(),
            },
    {
        match v {
            Json::Array(items) => {
                let ghost all = v@->Array_0;
                let mut out: Vec<Window> = Vec::new();
                let mut i: usize = 0;
                while i < items.len()
                    invariant
                        *v == Json::Array(*items),
                        all == v@->Array_0,
                        all.len() == items@.len(),
                        i <= items@.len(),
                        out@.len() == i,
                        forall|j: int| 0 <= j < i ==> text_of(#[trigger] all[j]) == Some(out@[j]@),
                    decreases items@.len() - i,
                {
                    assert(all[i as int] == items@[i as int]@);
                    match Window::from_json(&items[i]) {
                        Ok(w) => out.push(w),
                        Err(e) => {
                            assert(text_of(all[i as int]) is None);
                            return Err(e);
                        },
                    }
                    i = i + 1;
                }
                assert(all.map_values(|x: JsonValue| text_of(x)->Some_0) =~= out@.map_values(
                    |w: Window| w@,
                ));
                Ok(out)
            },
            _ => Err(Error::Transport(TransportError::UnexpectedValue)),
        }
    }
}

/// The timeouts of a session, in milliseconds.
#[derive(Clone, Copy, Debug, PartialEq, Eq, Structural)]
pub struct Timeouts {
    /// How long the driver waits for an element to be found or to become
    /// interactive.
    pub implicit: u64,
    /// How long a page may take to load before navigation fails.
    pub page_load: u64,
    /// How long a script may run.
    pub script: u64,
}

/// The timeouts record an object holds.
pub open spec fn timeouts_of(v: JsonValue) -> Option<Timeouts> {
    match (member(v, "implicit"@), member(v, "pageLoad"@), member(v, "script"@)) {
        (Some(JsonValue::Int(i)), Some(JsonValue::Int(p)), Some(JsonValue::Int(s))) => Some(
            Timeouts { implicit: i, page_load: p, script: s },
        ),
        _ => None,
    }
}

/// A timeouts record as the protocol writes it.
pub open spec fn timeouts_json(t: Timeouts) -> JsonValue {
    JsonValue::Object(
        seq![
            ("implicit"@, JsonValue::Int(t.implicit)),
            ("pageLoad"@, JsonValue::Int(t.page_load)),
            ("script"@, JsonValue::Int(t.script)),
        ],
    )
}

impl Default for Timeouts {
    fn default() -> (r: Timeouts)
        ensures
            r == (Timeouts { implicit: 0, page_load: 0, script: 0 }),
    {
        Timeouts { implicit: 0, page_load: 0, script: 0 }
    }
}

impl Timeouts {
    /// The record as a request body.
    pub fn to_json(&self) -> (r: Json)
        ensures
            r@ == timeouts_json(*self),
    {
        Json::object3(
            "implicit",
            Json::Int(self.implicit),
            "pageLoad",
            Json::Int(self.page_load),
            "script",
            Json::Int(self.script),
        )
    }

    /// The record an object holds.
    pub fn from_json(v: &Json) -> (r: Result<Timeouts, Error>)
        ensures
            match r {
                Ok(t) => timeouts_of(v@) == Some(t),
                Err(e) => timeouts_of(v@) is None && e@ == unexpected(),
            },
    {
        match (v.get("implicit"), v.get("pageLoad"), v.get("script")) {
            (Some(Json::Int(i)), Some(Json::Int(p)), Some(Json::Int(s))) => Ok(
                Timeouts { implicit: *i, page_load: *p, script: *s },
            ),
            _ => Err(Error::Transport(TransportError::UnexpectedValue)),
        }
    }
}

/// Decodes a reply whose value is an element reference.
pub fn read_element(resp: &Response) -> (r: Result<Element, Error>)
    ensures
        match r {
            Ok(e) => decoded(resp@, |v: JsonValue| element_of(v)) == Ok::<Seq<char>, ErrorView>(e@),
            Err(e) => decoded(resp@, |v: JsonValue| element_of(v)) == Err::<Seq<char>, ErrorView>(e@),
        },
{
    Element::from_json(open_envelope(resp)?)
}

/// Decodes a reply whose value is an array of element references.
pub fn read_elements(resp: &Response) -> (r: Result<Vec<Element>, Error>)
    ensures
        match r {
            Ok(es) => decoded(resp@, |v: JsonValue| elements_of(v)) == Ok::<Seq<Seq<char>>, ErrorView>(
                es@.map_values(|e: Element| e@),
            ),
            Err(e) => decoded(resp@, |v: JsonValue| elements_of(v)) == Err::<Seq<Seq<char>>, ErrorView>(e@),
        },
{
    Element::list_from_json(open_envelope(resp)?)
}

/// Decodes a reply whose value is a window handle.
pub fn read_window(resp: &Response) -> (r: Result<Window, Error>)
    ensures
        match r {
            Ok(w) => decoded(resp@, |v: JsonValue| text_of(v)) == Ok::<Seq<char>, ErrorView>(w@),
            Err(e) => decoded(resp@, |v: JsonValue| text_of(v)) == Err::<Seq<char>, ErrorView>(e@),
        },
{
    Window::from_json(open_envelope(resp)?)
}

/// Decodes a reply whose value is an array of window handles.
pub fn read_windows(resp: &Response) -> (r: Result<Vec<Window>, Error>)
    ensures
        match r {
            Ok(ws) => decoded(resp@, |v: JsonValue| windows_of(v)) == Ok::<Seq<Seq<char>>, ErrorView>(
                ws@.map_values(|w: Window| w@),
            ),
            Err(e) => decoded(resp@, |v: JsonValue| windows_of(v)) == Err::<Seq<Seq<char>>, ErrorView>(e@),
        },
{
    Window::list_from_json(open_envelope(resp)?)
}

/// Decodes a reply whose value is a timeouts record.
pub fn read_timeouts(resp: &Response) -> (r: Result<Timeouts, Error>)
    ensures
        match r {
            Ok(t) => decoded(resp@, |v: JsonValue| timeouts_of(v)) == Ok::<Timeouts, ErrorView>(t),
            Err(e) => decoded(resp@, |v: JsonValue| timeouts_of(v)) == Err::<Timeouts, ErrorView>(e@),
        },
{
    Timeouts::from_json(open_envelope(resp)?)
}

/// The capabilities asked of the browser when a session is created: a
/// free-form document that every matching browser must satisfy.
#[derive(Debug, PartialEq, Eq)]
pub struct Capabilities {
    always_match: Json,
}

impl View for Capabilities {
    type V = JsonValue;

    closed spec fn view(&self) -> JsonValue {
        self.always_match@
    }
}

impl Capabilities {
    /// Capabilities that every browser must match.
    pub fn new(always_match: Json) -> (r: Capabilities)
        ensures
            r@ == always_match@,
    {
        Capabilities { always_match }
    }
}

/// The body of a new-session request.
pub open spec fn new_session_json(capabilities: JsonValue) -> JsonValue {
    JsonValue::Object(seq![("capabilities"@, JsonValue::Object(seq![("alwaysMatch"@, capabilities)]))])
}

/// The session identifier a new-session reply body carries: at its top
/// level, or else inside its value.
pub open spec fn session_id_of(body: JsonValue) -> Option<Seq<char>> {
    match text_member(body, "sessionId"@) {
        Some(id) => Some(id),
        None => match member(body, "value"@) {
            Some(v) => text_member(v, "sessionId"@),
            None => None,
        },
    }
}

/// The outcome of a new-session reply: the session identifier, or the
/// error; an error the driver reports is a refusal to create the session.
pub open spec fn session_reply(r: ResponseView) -> Result<Seq<char>, ErrorView> {
    match reply_value(r) {
        Ok(_) => match session_id_of(r.body->Some_0) {
            Some(id) => Ok(id),
            None => Err(unexpected()),
        },
        Err(ErrorView::Protocol(e)) => Err(ErrorView::SessionCreationFailed(e)),
        Err(e) => Err(e),
    }
}

/// A session with a driver: the driver's base URL and, while the session is
/// open, the identifier the driver gave it.
#[derive(Clone, Debug, PartialEq, Eq)]
pub struct Client {
    url: String,
    session_id: Option<String>,
}

/// The model of a session: the base URL and the identifier of the open
/// session, if any.
pub struct ClientView {
    pub url: Seq<char>,
    pub session: Option<Seq<char>>,
}

impl View for Client {
    type V = ClientView;

    closed spec fn view(&self) -> ClientView {
        ClientView {
            url: self.url@,
            session: match self.session_id {
                Some(id) => Some(id@),
                None => None,
            },
        }
    }
}

/// The model of the outcome of building a request.
pub open spec fn request_result(r: Result<Request, Error>) -> Result<RequestView, ErrorView> {
    match r {
        Ok(q) => Ok(q@),
        Err(e) => Err(e@),
    }
}

/// The request of a session operation: its path is `session`, the session
/// identifier and `tail`; without an open session there is none.
pub open spec fn command(
    c: ClientView,
    method: Method,
    tail: Seq<Seq<char>>,
    body: Option<JsonValue>,
) -> Result<RequestView, ErrorView> {
    match c.session {
        None => Err(ErrorView::NoActiveSession),
        Some(id) => Ok(RequestView { method, path: path_text(seq!["session"@, id] + tail), body }),
    }
}

/// What closing does: the session is forgotten, and a request to delete it
/// is issued if it was open.
pub open spec fn close_effect(c: ClientView) -> (ClientView, Option<RequestView>) {
    (
        ClientView { url: c.url, session: None },
        match c.session {
            Some(id) => Some(
                RequestView {
                    method: Method::Delete,
                    path: path_text(seq!["session"@, id]),
                    body: None,
                },
            ),
            None => None,
        },
    )
}

/// The model of an optional request.
pub open spec fn optional_request(r: Option<Request>) -> Option<RequestView> {
    match r {
        Some(q) => Some(q@),
        None => None,
    }
}

/// The empty object, the body of operations that take no arguments.
pub open spec fn no_args() -> JsonValue {
    JsonValue::Object(seq![])
}

/// The frame argument of a frame switch: an element, or null for the
/// top-level browsing context.
pub open spec fn frame_json(frame: Option<&Element>) -> JsonValue {
    match frame {
        Some(e) => element_json(e@),
        None => JsonValue::Null,
    }
}

/// The body that types keys: the text, and the same text as the only item
/// of a list for drivers of the legacy protocol.
pub open spec fn keys_json(keys: Seq<char>) -> JsonValue {
    JsonValue::Object(seq![("text"@, JsonValue::Str(keys)), ("value"@, JsonValue::Array(seq![JsonValue::Str(keys)]))])
}

/// The views of path segments.
pub open spec fn segment_views(v: Seq<&str>) -> Seq<Seq<char>> {
    v.map_values(|s: &str| s@)
}

impl Client {
    /// The request that creates a session with the given capabilities.
    pub fn new_session_request(capabilities: Capabilities) -> (r: Request)
        ensures
            r@ == (RequestView {
                method: Method::Post,
                path: path_text(seq!["session"@]),
                body: Some(new_session_json(capabilities@)),
            }),
    {
        let segments = vec!["session"];
        let path = segments_path(&segments);
        assert(segment_views(segments@) =~= seq!["session"@]);
        let body = Json::object1("capabilities", Json::object1("alwaysMatch", capabilities.always_match));
        Request { method: Method::Post, path, body: Some(body) }
    }

    /// The session that a new-session reply opens on the driver at `url`.
    pub fn new(url: &str, resp: &Response) -> (r: Result<Client, Error>)
        ensures
            match r {
                Ok(c) => session_reply(resp@) == Ok::<Seq<char>, ErrorView>(c@.session->Some_0)
                    && c@.session is Some && c@.url == url@,
                Err(e) => session_reply(resp@) == Err::<Seq<char>, ErrorView>(e@),
            },
    {
        match open_envelope(resp) {
            Ok(_) => {
                let body = match &resp.body {
                    Some(b) => b,
                    None => {
                        return Err(Error::Transport(TransportError::MalformedBody));
                    },
                };
                let id = match body.get_text("sessionId") {
                    Some(id) => id.clone(),
                    None => match body.get("value") {
                        Some(v) => match v.get_text("sessionId") {
                            Some(id) => id.clone(),
                            None => {
                                return Err(Error::Transport(TransportError::UnexpectedValue));
                            },
                        },
                        None => {
                            return Err(Error::Transport(TransportError::UnexpectedValue));
                        },
                    },
                };
                Ok(Client { url: url.to_owned(), session_id: Some(id) })
            },
            Err(Error::Protocol(e)) => Err(Error::SessionCreationFailed(e)),
            Err(e) => Err(e),
        }
    }

    /// The driver's base URL.
    pub fn url(&self) -> (r: &str)
        ensures
            r@ == self@.url,
    {
        self.url.as_str()
    }

    /// The absolute URL of a request on this session's driver.
    pub fn request_url(&self, req: &Request) -> (r: Result<String, Error>)
        ensures
            match r {
                Ok(u) => joined_url(self@.url, req@.path) == Some(u@),
                Err(e) => joined_url(self@.url, req@.path) is None && e@ == ErrorView::Transport(
                    TransportErrorView::InvalidUrl,
                ),
            },
    {
        request_url(self.url.as_str(), req.path.as_str())
    }

    /// The identifier of the open session.
    pub fn session(&self) -> (r: Result<&str, Error>)
        ensures
            match r {
                Ok(id) => self@.session == Some(id@),
                Err(e) => self@.session is None && e@ == ErrorView::NoActiveSession,
            },
    {
        match &self.session_id {
            Some(id) => Ok(id.as_str()),
            None => Err(Error::NoActiveSession),
        }
    }

    /// Ends the session: returns the request that deletes it on the driver
    /// if it is open, and forgets it, so that a later call returns nothing.
    pub fn close(&mut self) -> (r: Option<Request>)
        ensures
            (final(self)@, optional_request(r)) == close_effect(old(self)@),
    {
        match self.session_id.take() {
            Some(id) => {
                let segments = vec!["session", id.as_str()];
                let path = segments_path(&segments);
                assert(segment_views(segments@) =~= seq!["session"@, id@]);
                Some(Request { method: Method::Delete, path, body: None })
            },
            None => None,
        }
    }

    /// The request of a session operation.
    fn command(&self, method: Method, tail: Vec<&str>, body: Option<Json>) -> (r: Result<
        Request,
        Error,
    >)
        ensures
            request_result(r) == command(self@, method, segment_views(tail@), optional_view(body)),
    {
        match &self.session_id {
            None => Err(Error::NoActiveSession),
            Some(id) => {
                let mut segments = vec!["session", id.as_str()];
                let ghost head = seq!["session"@, id@];
                assert(segment_views(segments@) =~= head);
                let mut i: usize = 0;
                while i < tail.len()
                    invariant
                        i <= tail@.len(),
                        segment_views(segments@) =~= head + segment_views(tail@).take(i as int),
                    decreases tail@.len() - i,
                {
                    let ghost before = segments@;
                    segments.push(tail[i]);
                    assert(segment_views(segments@) =~= segment_views(before).push(tail@[i as int]@));
                    assert(segment_views(tail@).take(i + 1) =~= segment_views(tail@).take(
                        i as int,
                    ).push(tail@[i as int]@));
                    i = i + 1;
                }
                assert(segment_views(tail@).take(tail@.len() as int) =~= segment_views(tail@));
                let path = segments_path(&segments);
                Ok(Request { method, path, body })
            },
        }
    }

    /// The request that reads the session's timeouts.
    pub fn timeouts(&self) -> (r: Result<Request, Error>)
        ensures
            request_result(r) == command(self@, Method::Get, seq!["timeouts"@], None),
    {
        let tail = vec!["timeouts"];
        assert(segment_views(tail@) =~= seq!["timeouts"@]);
        self.command(Method::Get, tail, None)
    }

    /// The request that changes the session's timeouts.
    pub fn set_timeouts(&self, timeouts: &Timeouts) -> (r: Result<Request, Error>)
        ensures
            request_result(r) == command(
                self@,
                Method::Post,
                seq!["timeouts"@],
                Some(timeouts_json(*timeouts)),
            ),
    {
        let tail = vec!["timeouts"];
        assert(segment_views(tail@) =~= seq!["timeouts"@]);
        self.command(Method::Post, tail, Some(timeouts.to_json()))
    }

    /// The request that opens the given URL.
    pub fn visit(&self, visit_url: &str) -> (r: Result<Request, Error>)
        ensures
            request_result(r) == command(
                self@,
                Method::Post,
                seq!["url"@],
                Some(JsonValue::Object(seq![("url"@, JsonValue::Str(visit_url@))])),
            ),
    {
        let tail = vec!["url"];
        assert(segment_views(tail@) =~= seq!["url"@]);
        self.command(Method::Post, tail, Some(Json::object1("url", Json::text(visit_url))))
    }

    /// The request that goes back one page in the history.
    pub fn back(&self) -> (r: Result<Request, Error>)
        ensures
            request_result(r) == command(self@, Method::Post, seq!["back"@], Some(no_args())),
    {
        let tail = vec!["back"];
        assert(segment_views(tail@) =~= seq!["back"@]);
        self.command(Method::Post, tail, Some(Json::empty_object()))
    }

    /// The request that goes forward one page in the history.
    pub fn forward(&self) -> (r: Result<Request, Error>)
        ensures
            request_result(r) == command(self@, Method::Post, seq!["forward"@], Some(no_args())),
    {
        let tail = vec!["forward"];
        assert(segment_views(tail@) =~= seq!["forward"@]);
        self.command(Method::Post, tail, Some(Json::empty_object()))
    }

    /// The request that reloads the current page.
    pub fn refresh(&self) -> (r: Result<Request, Error>)
        ensures
            request_result(r) == command(self@, Method::Post, seq!["refresh"@], Some(no_args())),
    {
        let tail = vec!["refresh"];
        assert(segment_views(tail@) =~= seq!["refresh"@]);
        self.command(Method::Post, tail, Some(Json::empty_object()))
    }

    /// The request that reads the current page's title.
    pub fn title(&self) -> (r: Result<Request, Error>)
        ensures
            request_result(r) == command(self@, Method::Get, seq!["title"@], None),
    {
        let tail = vec!["title"];
        assert(segment_views(tail@) =~= seq!["title"@]);
        self.command(Method::Get, tail, None)
    }

    /// The request that reads the browser's current URL.
    pub fn current_url(&self) -> (r: Result<Request, Error>)
        ensures
            request_result(r) == command(self@, Method::Get, seq!["url"@], None),
    {
        let tail = vec!["url"];
        assert(segment_views(tail@) =~= seq!["url"@]);
        self.command(Method::Get, tail, None)
    }

    /// The request that reads the handle of the current window.
    pub fn window(&self) -> (r: Result<Request, Error>)
        ensures
            request_result(r) == command(self@, Method::Get, seq!["window"@], None),
    {
        let tail = vec!["window"];
        assert(segment_views(tail@) =~= seq!["window"@]);
        self.command(Method::Get, tail, None)
    }

    /// The request that closes the current window; its reply lists the windows left.
    pub fn close_window(&self) -> (r: Result<Request, Error>)
        ensures
            request_result(r) == command(self@, Method::Delete, seq!["window"@], None),
    {
        let tail = vec!["window"];
        assert(segment_views(tail@) =~= seq!["window"@]);
        self.command(Method::Delete, tail, None)
    }

    /// The request that makes the given window the current one.
    pub fn switch_to_window(&self, window: &Window) -> (r: Result<Request, Error>)
        ensures
            request_result(r) == command(
                self@,
                Method::Post,
                seq!["window"@],
                Some(JsonValue::Object(seq![("handle"@, JsonValue::Str(window@))])),
            ),
    {
        let tail = vec!["window"];
        assert(segment_views(tail@) =~= seq!["window"@]);
        self.command(Method::Post, tail, Some(Json::object1("handle", Json::text(window.handle()))))
    }

    /// The request that lists the handles of all windows.
    pub fn windows(&self) -> (r: Result<Request, Error>)
        ensures
            request_result(r) == command(self@, Method::Get, seq!["window"@, "handles"@], None),
    {
        let tail = vec!["window", "handles"];
        assert(segment_views(tail@) =~= seq!["window"@, "handles"@]);
        self.command(Method::Get, tail, None)
    }

    /// The request that makes the given frame element the current browsing context, or the top-level one for none.
    pub fn switch_to_frame(&self, frame: Option<&Element>) -> (r: Result<Request, Error>)
        ensures
            request_result(r) == command(
                self@,
                Method::Post,
                seq!["frame"@],
                Some(JsonValue::Object(seq![("id"@, frame_json(frame))])),
            ),
    {
        let id = match frame {
            Some(e) => e.to_json(),
            None => Json::Null,
        };
        let tail = vec!["frame"];
        assert(segment_views(tail@) =~= seq!["frame"@]);
        self.command(Method::Post, tail, Some(Json::object1("id", id)))
    }

    /// The request that makes the parent of the current frame the current browsing context.
    pub fn switch_to_parent_frame(&self) -> (r: Result<Request, Error>)
        ensures
            request_result(r) == command(
                self@,
                Method::Post,
                seq!["frame"@, "parent"@],
                Some(no_args()),
            ),
    {
        let tail = vec!["frame", "parent"];
        assert(segment_views(tail@) =~= seq!["frame"@, "parent"@]);
        self.command(Method::Post, tail, Some(Json::empty_object()))
    }

    /// The request that looks up one element by the selector.
    pub fn find_element(&self, by: &By) -> (r: Result<Request, Error>)
        ensures
            request_result(r) == command(self@, Method::Post, seq!["element"@], Some(by_json(by@))),
    {
        let tail = vec!["element"];
        assert(segment_views(tail@) =~= seq!["element"@]);
        self.command(Method::Post, tail, Some(by.to_json()))
    }

    /// The request that looks up all elements the selector matches.
    pub fn find_elements(&self, by: &By) -> (r: Result<Request, Error>)
        ensures
            request_result(r) == command(
                self@,
                Method::Post,
                seq!["elements"@],
                Some(by_json(by@)),
            ),
    {
        let tail = vec!["elements"];
        assert(segment_views(tail@) =~= seq!["elements"@]);
        self.command(Method::Post, tail, Some(by.to_json()))
    }

    /// The request that looks up one element by the selector below the element `elt`.
    pub fn find_element_from(&self, elt: &Element, by: &By) -> (r: Result<Request, Error>)
        ensures
            request_result(r) == command(
                self@,
                Method::Post,
                seq!["element"@, elt@, "element"@],
                Some(by_json(by@)),
            ),
    {
        let tail = vec!["element", elt.id(), "element"];
        assert(segment_views(tail@) =~= seq!["element"@, elt@, "element"@]);
        self.command(Method::Post, tail, Some(by.to_json()))
    }

    /// The request that looks up all elements the selector matches below the element `elt`.
    pub fn find_elements_from(&self, elt: &Element, by: &By) -> (r: Result<Request, Error>)
        ensures
            request_result(r) == command(
                self@,
                Method::Post,
                seq!["element"@, elt@, "elements"@],
                Some(by_json(by@)),
            ),
    {
        let tail = vec!["element", elt.id(), "elements"];
        assert(segment_views(tail@) =~= seq!["element"@, elt@, "elements"@]);
        self.command(Method::Post, tail, Some(by.to_json()))
    }

    /// The request that reads the text of an element, its descendants' included.
    pub fn text(&self, elt: &Element) -> (r: Result<Request, Error>)
        ensures
            request_result(r) == command(self@, Method::Get, seq!["element"@, elt@, "text"@], None),
    {
        let tail = vec!["element", elt.id(), "text"];
        assert(segment_views(tail@) =~= seq!["element"@, elt@, "text"@]);
        self.command(Method::Get, tail, None)
    }

    /// The request that reads the named attribute of an element.
    pub fn attribute(&self, elt: &Element, attribute: &str) -> (r: Result<Request, Error>)
        ensures
            request_result(r) == command(
                self@,
                Method::Get,
                seq!["element"@, elt@, "attribute"@, attribute@],
                None,
            ),
    {
        let tail = vec!["element", elt.id(), "attribute", attribute];
        assert(segment_views(tail@) =~= seq!["element"@, elt@, "attribute"@, attribute@]);
        self.command(Method::Get, tail, None)
    }

    /// The request that reads the tag name of an element.
    pub fn name(&self, elt: &Element) -> (r: Result<Request, Error>)
        ensures
            request_result(r) == command(self@, Method::Get, seq!["element"@, elt@, "name"@], None),
    {
        let tail = vec!["element", elt.id(), "name"];
        assert(segment_views(tail@) =~= seq!["element"@, elt@, "name"@]);
        self.command(Method::Get, tail, None)
    }

    /// The request that clicks an element.
    pub fn click(&self, elt: &Element) -> (r: Result<Request, Error>)
        ensures
            request_result(r) == command(
                self@,
                Method::Post,
                seq!["element"@, elt@, "click"@],
                Some(no_args()),
            ),
    {
        let tail = vec!["element", elt.id(), "click"];
        assert(segment_views(tail@) =~= seq!["element"@, elt@, "click"@]);
        self.command(Method::Post, tail, Some(Json::empty_object()))
    }

    /// The request that types the keys into an element.
    pub fn send_keys(&self, elt: &Element, keys: &str) -> (r: Result<Request, Error>)
        ensures
            request_result(r) == command(
                self@,
                Method::Post,
                seq!["element"@, elt@, "value"@],
                Some(keys_json(keys@)),
            ),
    {
        let tail = vec!["element", elt.id(), "value"];
        assert(segment_views(tail@) =~= seq!["element"@, elt@, "value"@]);
        self.command(Method::Post, tail, Some(Json::object2("text", Json::text(keys), "value", Json::array1(Json::text(keys)))))
    }

    /// The request that clears an input element.
    pub fn clear(&self, elt: &Element) -> (r: Result<Request, Error>)
        ensures
            request_result(r) == command(
                self@,
                Method::Post,
                seq!["element"@, elt@, "clear"@],
                Some(no_args()),
            ),
    {
        let tail = vec!["element", elt.id(), "clear"];
        assert(segment_views(tail@) =~= seq!["element"@, elt@, "clear"@]);
        self.command(Method::Post, tail, Some(Json::empty_object()))
    }

    /// The request that reads the source of the current document.
    pub fn page_source(&self) -> (r: Result<Request, Error>)
        ensures
            request_result(r) == command(self@, Method::Get, seq!["source"@], None),
    {
        let tail = vec!["source"];
        assert(segment_views(tail@) =~= seq!["source"@]);
        self.command(Method::Get, tail, None)
    }

    /// The request that takes a screenshot of the current document.
    pub fn screenshot(&self) -> (r: Result<Request, Error>)
        ensures
            request_result(r) == command(self@, Method::Get, seq!["screenshot"@], None),
    {
        let tail = vec!["screenshot"];
        assert(segment_views(tail@) =~= seq!["screenshot"@]);
        self.command(Method::Get, tail, None)
    }

    /// The request that takes a screenshot of an element.
    pub fn element_screenshot(&self, elt: &Element) -> (r: Result<Request, Error>)
        ensures
            request_result(r) == command(
                self@,
                Method::Get,
                seq!["element"@, elt@, "screenshot"@],
                None,
            ),
    {
        let tail = vec!["element", elt.id(), "screenshot"];
        assert(segment_views(tail@) =~= seq!["element"@, elt@, "screenshot"@]);
        self.command(Method::Get, tail, None)
    }
}

/// A lookup that the driver answers with an error, such as `no such
/// element` when nothing matches, fails with that protocol error and never
/// with a transport error, whether the driver sends it with a failure status
/// and a JSON body or inside a successful reply.
pub proof fn lemma_lookup_error_is_protocol_error(r: ResponseView, e: WdErrorView)
    requires
        r.body is Some,
        reported_error(r.body->Some_0) == Some(e),
        is_success(r.status) || has_media_prefix(r.content_type, "application/json"@),
    ensures
        decoded(r, |v: JsonValue| element_of(v)) == Err::<Seq<char>, ErrorView>(ErrorView::Protocol(e)),
{
}

/// An attribute that is present decodes to its value and an absent one,
/// which the driver reports as null, decodes to none; neither is an error.
pub proof fn lemma_attribute_presence(r: ResponseView)
    ensures
        forall|s: Seq<char>|
            reply_value(r) == Ok::<JsonValue, ErrorView>(JsonValue::Str(s)) ==> decoded(
                r,
                |v: JsonValue| optional_text_of(v),
            ) == Ok::<Option<Seq<char>>, ErrorView>(Some(s)),
        reply_value(r) == Ok::<JsonValue, ErrorView>(JsonValue::Null) ==> decoded(
            r,
            |v: JsonValue| optional_text_of(v),
        ) == Ok::<Option<Seq<char>>, ErrorView>(None),
{
}

/// The timeouts a set-timeouts request writes are the timeouts that a
/// reply carrying that same object decodes to.
pub proof fn lemma_timeouts_round_trip(t: Timeouts, r: ResponseView)
    ensures
        timeouts_of(timeouts_json(t)) == Some(t),
        reply_value(r) == Ok::<JsonValue, ErrorView>(timeouts_json(t)) ==> decoded(
            r,
            |v: JsonValue| timeouts_of(v),
        ) == Ok::<Timeouts, ErrorView>(t),
{
    reveal_with_fuel(crate::json::lookup, 4);
    reveal_strlit("implicit");
    reveal_strlit("pageLoad");
    reveal_strlit("script");
    assert("implicit"@[0] != "pageLoad"@[0]);
    assert("implicit"@[0] != "script"@[0]);
    assert("pageLoad"@[0] != "script"@[0]);
}

/// Closing twice issues one request: the second close finds no session,
/// issues nothing and changes nothing.
pub proof fn lemma_close_idempotent(c: ClientView)
    ensures
        close_effect(close_effect(c).0).1 is None,
        close_effect(close_effect(c).0).0 == close_effect(c).0,
{
}

} // verus!
