use sulfur::chrome::{self, DriverConfig, LogLevel};
use sulfur::driver::{
    driver_url, status_url, Phase, Probe, StartupStep, Supervisor, TeardownStep, START_TIMEOUT_MS,
};
use sulfur::gecko;
use sulfur::json::Json;
use sulfur::port::{after_bind, candidate_port, random_offset, BindOutcome, PortStep, MAX_ATTEMPTS, PORT_BASE, PORT_SPAN};
use sulfur::wire::{Error, Method, Response, TransportError};
use sulfur::{Client, DriverHolder};

fn session_reply() -> Response {
    let body = Json::Object(vec![(
        "value".to_string(),
        Json::Object(vec![("sessionId".to_string(), Json::Str("s1".to_string()))]),
    )]);
    Response { status: 200, content_type: None, text: String::new(), body: Some(body) }
}

#[test]
fn driver_urls() {
    assert_eq!(driver_url(4444), "http://127.0.0.1:4444/");
    assert_eq!(driver_url(0), "http://127.0.0.1:0/");
    assert_eq!(driver_url(65535), "http://127.0.0.1:65535/");
    assert_eq!(status_url(9515), "http://127.0.0.1:9515/status");
}

#[test]
fn chromedriver_arguments() {
    assert_eq!(DriverConfig::default().command_args(4444), vec!["--port=4444", "--log-level=OFF"]);
    assert_eq!(
        DriverConfig::new(LogLevel::Debug).command_args(10007),
        vec!["--port=10007", "--log-level=DEBUG"]
    );
    assert_eq!(chrome::BINARY, "chromedriver");
}

#[test]
fn log_level_names() {
    let names: Vec<String> = [LogLevel::Off, LogLevel::Severe, LogLevel::Warning, LogLevel::Info, LogLevel::Debug, LogLevel::All]
        .iter()
        .map(|l| l.to_string())
        .collect();
    assert_eq!(names, vec!["OFF", "SEVERE", "WARNING", "INFO", "DEBUG", "ALL"]);
    assert_eq!(LogLevel::default(), LogLevel::Off);
}

#[test]
fn geckodriver_arguments() {
    assert_eq!(gecko::command_args(5000), vec!["--port=5000"]);
    assert_eq!(gecko::BINARY, "geckodriver");
}

fn obj(fields: Vec<(&str, Json)>) -> Json {
    Json::Object(fields.into_iter().map(|(k, v)| (k.to_string(), v)).collect())
}

#[test]
fn chrome_capabilities() {
    let mut config = chrome::Config::default();
    config.headless(true);
    let expected = obj(vec![
        ("browserName", Json::Str("chrome".to_string())),
        (
            "goog:chromeOptions",
            obj(vec![
                ("w3c", Json::Bool(true)),
                ("args", Json::Array(vec![Json::Str("--headless".to_string())])),
            ]),
        ),
    ]);
    let q = Client::new_session_request(config.to_capabilities());
    assert_eq!(q.body, Some(obj(vec![("capabilities", obj(vec![("alwaysMatch", expected)]))])));
    let plain = Client::new_session_request(chrome::Config::default().to_capabilities());
    let args = match plain.body {
        Some(Json::Object(f)) => match &f[0].1 {
            Json::Object(g) => match &g[0].1 {
                Json::Object(h) => match &h[1].1 {
                    Json::Object(o) => o[1].1.clone_args(),
                    _ => panic!(),
                },
                _ => panic!(),
            },
            _ => panic!(),
        },
        _ => panic!(),
    };
    assert_eq!(args, 0);
}

trait ArgCount {
    fn clone_args(&self) -> usize;
}

impl ArgCount for Json {
    fn clone_args(&self) -> usize {
        match self {
            Json::Array(a) => a.len(),
            _ => panic!("array"),
        }
    }
}

#[test]
fn firefox_capabilities() {
    let mut config = gecko::Config::default();
    config.headless(true).headless(true);
    let expected = obj(vec![
        ("browserName", Json::Str("firefox".to_string())),
        ("moz:firefoxOptions", obj(vec![("args", Json::Array(vec![Json::Str("--headless".to_string())]))])),
    ]);
    let q = Client::new_session_request(config.to_capabilities());
    assert_eq!(q.body, Some(obj(vec![("capabilities", obj(vec![("alwaysMatch", expected)]))])));
}

#[test]
fn startup_polls_with_doubling_pause() {
    let mut s = Supervisor::new(START_TIMEOUT_MS);
    assert_eq!(s.phase(), Phase::Starting);
    assert_eq!(s.on_probe(Probe::Unreachable, 0), StartupStep::Wait(1));
    assert_eq!(s.on_probe(Probe::Unreachable, 1), StartupStep::Wait(2));
    assert_eq!(s.on_probe(Probe::Unreachable, 3), StartupStep::Wait(4));
    assert_eq!(s.on_probe(Probe::Healthy, 7), StartupStep::Ready);
    assert_eq!(s.phase(), Phase::Healthy);
}

#[test]
fn startup_pause_stops_at_deadline() {
    let mut s = Supervisor::new(10);
    for _ in 0..3 {
        s.on_probe(Probe::Unreachable, 0);
    }
    assert_eq!(s.on_probe(Probe::Unreachable, 7), StartupStep::Wait(3));
    assert_eq!(s.on_probe(Probe::Unreachable, 10), StartupStep::Fail(Error::StartupTimeout));
    assert_eq!(s.phase(), Phase::Failed);
}

#[test]
fn startup_fails_fast_on_exit() {
    let mut s = Supervisor::new(START_TIMEOUT_MS);
    assert_eq!(s.on_probe(Probe::Exited(Some(1)), 5), StartupStep::Fail(Error::ProcessExited(Some(1))));
    assert_eq!(s.phase(), Phase::Failed);
}

#[test]
fn supervisor_closes_once() {
    let mut s = Supervisor::new(START_TIMEOUT_MS);
    s.on_probe(Probe::Healthy, 0);
    s.on_exit();
    assert_eq!(s.phase(), Phase::Failed);
    assert!(s.close());
    assert!(!s.close());
    s.on_exit();
    assert_eq!(s.phase(), Phase::Closed);
}

#[test]
fn holder_closes_session_before_driver() {
    let client = Client::new("http://127.0.0.1:4444/", &session_reply()).unwrap();
    let mut h = DriverHolder::new(client);
    assert_eq!(h.client().session(), Ok("s1"));
    match h.close() {
        TeardownStep::CloseSession(q) => {
            assert_eq!(q.method, Method::Delete);
            assert_eq!(q.path, "session/s1");
        },
        other => panic!("session first, got {:?}", other),
    }
    assert_eq!(h.close(), TeardownStep::StopDriver);
    assert_eq!(h.close(), TeardownStep::Done);
    assert_eq!(h.close(), TeardownStep::Done);
}

#[test]
fn holder_with_closed_session_stops_driver() {
    let mut client = Client::new("http://127.0.0.1:4444/", &session_reply()).unwrap();
    client.close();
    let mut h = DriverHolder::new(client);
    assert_eq!(h.close(), TeardownStep::StopDriver);
    assert_eq!(h.close(), TeardownStep::Done);
}

#[test]
fn consecutive_tickets_give_distinct_ports() {
    let offset = random_offset();
    assert!(offset < PORT_SPAN);
    let ports: std::collections::BTreeSet<u16> = (0..20u64).map(|t| candidate_port(offset, t)).collect();
    assert_eq!(ports.len(), 20);
    assert!(ports.iter().all(|p| *p >= PORT_BASE && *p < 65535));
}

#[test]
fn candidate_ports_wrap_around() {
    assert_eq!(candidate_port(0, 0), 4444);
    assert_eq!(candidate_port(PORT_SPAN - 1, 0), 65534);
    assert_eq!(candidate_port(PORT_SPAN - 1, 1), 4444);
    assert_eq!(candidate_port(10, u64::MAX), 4444 + ((10 + (u64::MAX % 61091)) % 61091) as u16);
}

#[test]
fn probe_decisions() {
    assert_eq!(after_bind(BindOutcome::Bound(5000), 0), PortStep::Use(5000));
    assert_eq!(after_bind(BindOutcome::InUse, 0), PortStep::Retry);
    assert_eq!(after_bind(BindOutcome::InUse, MAX_ATTEMPTS - 1), PortStep::Fail(Error::ResourceExhausted));
    assert_eq!(
        after_bind(BindOutcome::Failed("denied".to_string()), 0),
        PortStep::Fail(Error::Transport(TransportError::Connection("denied".to_string())))
    );
}
