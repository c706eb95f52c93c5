use sulfur::client::{read_element, read_elements, read_timeouts, read_window, read_windows};
use sulfur::json::Json;
use sulfur::wire::{read_optional_text, read_text, read_unit, Error, Method, Response};
use sulfur::{By, Capabilities, Client, Element, Timeouts, Window};

fn to_json(v: &serde_json::Value) -> Json {
    match v {
        serde_json::Value::Null => Json::Null,
        serde_json::Value::Bool(b) => Json::Bool(*b),
        serde_json::Value::Number(n) => match n.as_u64() {
            Some(u) => Json::Int(u),
            None => Json::Number(n.to_string()),
        },
        serde_json::Value::String(s) => Json::Str(s.clone()),
        serde_json::Value::Array(items) => Json::Array(items.iter().map(to_json).collect()),
        serde_json::Value::Object(fields) => Json::Object(
            fields.iter().map(|(k, v)| (k.clone(), to_json(v))).collect(),
        ),
    }
}

fn ok(text: &str) -> Response {
    Response {
        status: 200,
        content_type: Some("application/json".to_string()),
        text: text.to_string(),
        body: Some(to_json(&serde_json::from_str(text).unwrap())),
    }
}

fn failed(status: u16, text: &str) -> Response {
    Response { status, ..ok(text) }
}

fn open() -> Client {
    Client::new("http://127.0.0.1:4444/", &ok(r#"{"value": {"sessionId": "abc", "capabilities": {}}}"#))
        .expect("session")
}

fn obj(fields: Vec<(&str, Json)>) -> Json {
    Json::Object(fields.into_iter().map(|(k, v)| (k.to_string(), v)).collect())
}

#[test]
fn session_id_nested_under_value() {
    let c = open();
    assert_eq!(c.session(), Ok("abc"));
    assert_eq!(c.url(), "http://127.0.0.1:4444/");
    let q = c.title().unwrap();
    assert_eq!(c.request_url(&q), Ok("http://127.0.0.1:4444/session/abc/title".to_string()));
}

#[test]
fn session_id_at_top_level() {
    let c = Client::new(
        "http://127.0.0.1:9515/",
        &ok(r#"{"sessionId": "top", "status": 0, "value": {"browserName": "chrome"}}"#),
    )
    .unwrap();
    assert_eq!(c.session(), Ok("top"));
}

#[test]
fn refused_session_is_creation_failure() {
    let r = failed(500, r#"{"value": {"error": "session not created", "message": "no browser"}}"#);
    match Client::new("http://127.0.0.1:1/", &r) {
        Err(Error::SessionCreationFailed(e)) => assert_eq!(e.error, "session not created"),
        other => panic!("expected a creation failure, got {:?}", other),
    }
}

#[test]
fn new_session_request_nests_capabilities() {
    let caps = Capabilities::new(obj(vec![("browserName", Json::Str("firefox".to_string()))]));
    let q = Client::new_session_request(caps);
    assert_eq!(q.method, Method::Post);
    assert_eq!(q.path, "session");
    let expected = obj(vec![(
        "capabilities",
        obj(vec![("alwaysMatch", obj(vec![("browserName", Json::Str("firefox".to_string()))]))]),
    )]);
    assert_eq!(q.body, Some(expected));
}

#[test]
fn visit_posts_url() {
    let c = open();
    let q = c.visit("http://localhost:8000/").unwrap();
    assert_eq!(q.method, Method::Post);
    assert_eq!(q.path, "session/abc/url");
    assert_eq!(q.body, Some(obj(vec![("url", Json::Str("http://localhost:8000/".to_string()))])));
}

#[test]
fn history_requests_post_empty_objects() {
    let c = open();
    for (q, last) in [(c.back(), "back"), (c.forward(), "forward"), (c.refresh(), "refresh")] {
        let q = q.unwrap();
        assert_eq!(q.method, Method::Post);
        assert_eq!(q.path, format!("session/abc/{}", last));
        assert_eq!(q.body, Some(Json::Object(vec![])));
    }
}

#[test]
fn reads_are_gets_without_body() {
    let c = open();
    let e = Element::new("e1".to_string());
    let cases = vec![
        (c.title().unwrap(), "session/abc/title"),
        (c.current_url().unwrap(), "session/abc/url"),
        (c.window().unwrap(), "session/abc/window"),
        (c.windows().unwrap(), "session/abc/window/handles"),
        (c.timeouts().unwrap(), "session/abc/timeouts"),
        (c.page_source().unwrap(), "session/abc/source"),
        (c.screenshot().unwrap(), "session/abc/screenshot"),
        (c.text(&e).unwrap(), "session/abc/element/e1/text"),
        (c.name(&e).unwrap(), "session/abc/element/e1/name"),
        (c.element_screenshot(&e).unwrap(), "session/abc/element/e1/screenshot"),
        (c.attribute(&e, "data-my-id").unwrap(), "session/abc/element/e1/attribute/data-my-id"),
    ];
    for (q, path) in cases {
        assert_eq!(q.method, Method::Get);
        assert_eq!(q.path, path);
        assert_eq!(q.body, None);
    }
}

#[test]
fn attribute_name_cannot_leave_its_segment() {
    let c = open();
    let e = Element::new("e/1".to_string());
    let q = c.attribute(&e, "../../x").unwrap();
    assert_eq!(q.path, "session/abc/element/e%2F1/attribute/..%2F..%2Fx");
}

#[test]
fn find_requests_carry_selector() {
    let c = open();
    let by = By::css("#an-id");
    let body = obj(vec![
        ("using", Json::Str("css selector".to_string())),
        ("value", Json::Str("#an-id".to_string())),
    ]);
    let q = c.find_element(&by).unwrap();
    assert_eq!((q.method, q.path.as_str()), (Method::Post, "session/abc/element"));
    assert_eq!(q.body, Some(body));
    let q = c.find_elements(&By::xpath("//p")).unwrap();
    assert_eq!(q.path, "session/abc/elements");
    let e = Element::new("root".to_string());
    assert_eq!(c.find_element_from(&e, &by).unwrap().path, "session/abc/element/root/element");
    assert_eq!(c.find_elements_from(&e, &by).unwrap().path, "session/abc/element/root/elements");
}

#[test]
fn selector_strategies() {
    let strategy = |b: By| match b.to_json() {
        Json::Object(f) => f[0].1.clone_text(),
        _ => panic!("object"),
    };
    assert_eq!(strategy(By::css("a")), "css selector");
    assert_eq!(strategy(By::link_text("a")), "link text");
    assert_eq!(strategy(By::partial_link_text("a")), "partial link text");
    assert_eq!(strategy(By::tag_name("a")), "tag name");
    assert_eq!(strategy(By::xpath("a")), "xpath");
}

trait CloneText {
    fn clone_text(&self) -> String;
}

impl CloneText for Json {
    fn clone_text(&self) -> String {
        match self {
            Json::Str(s) => s.clone(),
            _ => panic!("string"),
        }
    }
}

#[test]
fn interaction_requests() {
    let c = open();
    let e = Element::new("e1".to_string());
    let q = c.click(&e).unwrap();
    assert_eq!((q.method, q.path.as_str()), (Method::Post, "session/abc/element/e1/click"));
    assert_eq!(q.body, Some(Json::Object(vec![])));
    let q = c.clear(&e).unwrap();
    assert_eq!(q.path, "session/abc/element/e1/clear");
    let q = c.send_keys(&e, "Canary text").unwrap();
    assert_eq!(q.path, "session/abc/element/e1/value");
    assert_eq!(
        q.body,
        Some(obj(vec![
            ("text", Json::Str("Canary text".to_string())),
            ("value", Json::Array(vec![Json::Str("Canary text".to_string())])),
        ]))
    );
}

#[test]
fn window_and_frame_requests() {
    let c = open();
    let q = c.switch_to_window(&Window::new("w2".to_string())).unwrap();
    assert_eq!((q.method, q.path.as_str()), (Method::Post, "session/abc/window"));
    assert_eq!(q.body, Some(obj(vec![("handle", Json::Str("w2".to_string()))])));
    let q = c.close_window().unwrap();
    assert_eq!((q.method, q.path.as_str()), (Method::Delete, "session/abc/window"));
    let q = c.switch_to_frame(None).unwrap();
    assert_eq!(q.path, "session/abc/frame");
    assert_eq!(q.body, Some(obj(vec![("id", Json::Null)])));
    let f = Element::new("f1".to_string());
    let q = c.switch_to_frame(Some(&f)).unwrap();
    assert_eq!(
        q.body,
        Some(obj(vec![(
            "id",
            obj(vec![("element-6066-11e4-a52e-4f735466cecf", Json::Str("f1".to_string()))])
        )]))
    );
    let q = c.switch_to_parent_frame().unwrap();
    assert_eq!(q.path, "session/abc/frame/parent");
}

#[test]
fn close_twice_issues_one_request() {
    let mut c = open();
    let q = c.close().expect("a delete request");
    assert_eq!((q.method, q.path.as_str()), (Method::Delete, "session/abc"));
    assert_eq!(q.body, None);
    assert!(c.close().is_none());
    assert_eq!(c.session(), Err(Error::NoActiveSession));
}

#[test]
fn operations_without_session_fail_locally() {
    let mut c = open();
    c.close();
    assert_eq!(c.visit("http://x/"), Err(Error::NoActiveSession));
    assert_eq!(c.find_element(&By::css("p")), Err(Error::NoActiveSession));
    assert_eq!(c.set_timeouts(&Timeouts::default()), Err(Error::NoActiveSession));
}

#[test]
fn session_id_is_escaped_in_paths() {
    let c = Client::new("http://h/", &ok(r#"{"value": {"sessionId": "a/b"}}"#)).unwrap();
    assert_eq!(c.title().unwrap().path, "session/a%2Fb/title");
}

#[test]
fn element_decodes_under_either_key() {
    let w3c = ok(r#"{"value": {"element-6066-11e4-a52e-4f735466cecf": "w3c-id"}}"#);
    assert_eq!(read_element(&w3c).unwrap().id(), "w3c-id");
    let legacy = ok(r#"{"value": {"ELEMENT": "legacy-id"}}"#);
    let e = read_element(&legacy).unwrap();
    assert_eq!(e.id(), "legacy-id");
    assert_eq!(
        e.to_json(),
        obj(vec![("element-6066-11e4-a52e-4f735466cecf", Json::Str("legacy-id".to_string()))])
    );
    assert!(read_element(&ok(r#"{"value": {"id": "x"}}"#)).is_err());
}

#[test]
fn find_element_fails_on_missing_element() {
    let r = failed(404, r##"{"value": {"error": "no such element", "message": "Unable to locate element: {\"method\":\"css selector\",\"selector\":\"#i-do-not-exist\"}"}}"##);
    match read_element(&r) {
        Err(Error::Protocol(e)) => {
            assert_eq!(e.error, "no such element");
            assert!(e.message.contains("#i-do-not-exist"));
        },
        other => panic!("Result should be a protocol error: {:?}", other),
    }
}

#[test]
fn find_elements_counts_matches() {
    let r = ok(r#"{"value": [{"element-6066-11e4-a52e-4f735466cecf": "a"}, {"ELEMENT": "b"}, {"element-6066-11e4-a52e-4f735466cecf": "c"}]}"#);
    let found = read_elements(&r).unwrap();
    assert_eq!(found.iter().map(|e| e.id()).collect::<Vec<_>>(), vec!["a", "b", "c"]);
    assert_eq!(read_elements(&ok(r#"{"value": []}"#)), Ok(vec![]));
    assert!(read_elements(&ok(r#"{"value": [{"x": 1}]}"#)).is_err());
}

#[test]
fn timeouts() {
    let t = Timeouts { implicit: 0, page_load: 300000, script: 30000 };
    let body = t.to_json();
    let r = Response { status: 200, content_type: None, text: String::new(), body: Some(obj(vec![("value", body)])) };
    assert_eq!(read_timeouts(&r), Ok(t));
    let partial = ok(r#"{"value": {"implicit": 1, "pageLoad": 2}}"#);
    assert!(read_timeouts(&partial).is_err());
}

#[test]
fn windows_decode() {
    assert_eq!(read_window(&ok(r#"{"value": "w1"}"#)).unwrap().handle(), "w1");
    let ws = read_windows(&ok(r#"{"value": ["w1", "w2"]}"#)).unwrap();
    assert_eq!(ws, vec![Window::new("w1".to_string()), Window::new("w2".to_string())]);
    assert!(ws[0].same(&Window::new("w1".to_string())));
    assert!(!ws[0].same(&ws[1]));
}

// In the tests below the driver's replies are written out; no browser runs.

// Scenario: visit a page, go back and forward, and find the URL again.
#[test]
fn navigation_scenario_replies() {
    let mut c = open();
    let base = "http://localhost:8000/";
    assert_eq!(c.visit(base).unwrap().path, "session/abc/url");
    assert_eq!(read_unit(&ok(r#"{"value": null}"#)), Ok(()));
    let here = read_text(&ok(r#"{"value": "http://localhost:8000/index.html"}"#)).unwrap();
    assert!(here.starts_with(base));
    assert_eq!(c.back().unwrap().path, "session/abc/back");
    assert_eq!(c.forward().unwrap().path, "session/abc/forward");
    let again = read_text(&ok(r#"{"value": "http://localhost:8000/index.html"}"#)).unwrap();
    assert_eq!(again, here);
    assert!(c.close().is_some());
}

// Scenario: a paragraph found by its id reads "Hello world".
#[test]
fn find_text_present() {
    let c = open();
    let q = c.find_element(&By::css("#an-id")).unwrap();
    assert_eq!(q.path, "session/abc/element");
    let elt = read_element(&ok(r#"{"value": {"element-6066-11e4-a52e-4f735466cecf": "p1"}}"#)).unwrap();
    assert_eq!(c.text(&elt).unwrap().path, "session/abc/element/p1/text");
    let text = read_text(&ok(r#"{"value": " Hello world "}"#)).unwrap();
    assert_eq!(text.trim(), "Hello world");
}

// Scenario: three elements of a class are found; a selector matching nothing
// gives an empty list, not an error.
#[test]
fn find_multiple_elements() {
    let three = ok(r#"{"value": [{"ELEMENT": "1"}, {"ELEMENT": "2"}, {"ELEMENT": "3"}]}"#);
    assert_eq!(read_elements(&three).unwrap().len(), 3);
    assert_eq!(read_elements(&ok(r#"{"value": []}"#)).unwrap().len(), 0);
}

// Scenario: a second window opens, is switched to, and closing it leaves the
// original one.
#[test]
fn window_handles() {
    let c = open();
    let original = read_window(&ok(r#"{"value": "w-orig"}"#)).unwrap();
    let all = read_windows(&ok(r#"{"value": ["w-orig", "w-new"]}"#)).unwrap();
    assert_eq!(all.len(), 2);
    let other = all.iter().find(|w| !w.same(&original)).unwrap();
    assert_eq!(c.switch_to_window(other).unwrap().path, "session/abc/window");
    let url = read_text(&ok(r#"{"value": "http://localhost:8000/#new-window"}"#)).unwrap();
    assert!(url.contains("#new-window"));
    let left = read_windows(&ok(r#"{"value": ["w-orig"]}"#)).unwrap();
    assert_eq!(left, vec![original]);
}

#[test]
fn find_attribute_value() {
    assert_eq!(
        read_optional_text(&ok(r#"{"value": "my-id-value"}"#)),
        Ok(Some("my-id-value".to_string()))
    );
    assert_eq!(read_optional_text(&ok(r#"{"value": null}"#)), Ok(None));
}
