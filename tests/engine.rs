use merpati::exec::{Action, Event, Execution, Phase, RequestDescriptor};
use merpati::headers::{HttpHeaderEntry, HttpHeaders};
use merpati::method::HttpMethod;
use merpati::response::{assemble, Frame, ResponseAssembler, ResponseOutcome};
use merpati::script::{parse_script, run_script, ScriptError, ScriptReport, ScriptRuntime};
use merpati::target::connect_target;

fn completed(s: &str) -> ResponseOutcome {
    ResponseOutcome::Completed(s.to_string())
}

fn failed(s: &str) -> ResponseOutcome {
    ResponseOutcome::Failed(s.to_string())
}

#[test]
fn empty_body_is_completed_empty_text() {
    assert_eq!(assemble(&vec![]), completed(""));
    assert_eq!(ResponseAssembler::new().finish(), completed(""));
}

#[test]
fn invalid_utf8_is_invalid_encoding() {
    assert_eq!(assemble(&vec![Frame::Data(vec![b'o', b'k', 0xff])]), failed("invalid encoding"));
    assert_eq!(assemble(&vec![Frame::Data(vec![0xc3])]), failed("invalid encoding"));
}

#[test]
fn frames_concatenate_in_order() {
    let frames = vec![
        Frame::Data(b"hel".to_vec()),
        Frame::Data(vec![]),
        Frame::Data(b"lo".to_vec()),
    ];
    assert_eq!(assemble(&frames), completed("hello"));
}

#[test]
fn multibyte_char_split_across_frames() {
    let frames = vec![Frame::Data(vec![b'c', b'a', b'f', 0xc3]), Frame::Data(vec![0xa9])];
    assert_eq!(assemble(&frames), completed("café"));
}

#[test]
fn read_error_discards_partial_body() {
    let frames = vec![
        Frame::Data(b"partial".to_vec()),
        Frame::Error("connection reset".to_string()),
        Frame::Error("later".to_string()),
    ];
    assert_eq!(assemble(&frames), failed("connection reset"));
}

#[test]
fn assembler_push_and_finish() {
    let mut a = ResponseAssembler::new();
    a.push_frame(b"{\"ok\":");
    a.push_frame(b"true}");
    assert_eq!(a.finish(), completed("{\"ok\":true}"));
}

#[test]
fn script_parse_error_is_reported() {
    match parse_script("print(") {
        Err(ScriptError::Parse { message, .. }) => assert!(!message.is_empty()),
        other => panic!("expected a parse error, got {:?}", other.map(|_| ())),
    }
}

#[test]
fn script_that_parses() {
    assert!(parse_script("print(\"hello\")").is_ok());
    assert!(parse_script("print(status_code)").is_ok());
    assert!(parse_script("").is_ok());
}

fn get_ping() -> RequestDescriptor {
    RequestDescriptor {
        method: HttpMethod::Get,
        headers: HttpHeaders::default(),
        url: "http://example.test/ping".to_string(),
        body: String::new(),
    }
}

fn run_to_script(ex: &mut Execution, status: u16, body: &[u8]) -> Action {
    assert!(matches!(ex.step(Event::Connected), Action::Send));
    assert!(matches!(ex.step(Event::ResponseHead(status)), Action::ReadFrame));
    assert!(matches!(ex.step(Event::Frame(body.to_vec())), Action::ReadFrame));
    ex.step(Event::BodyEnded)
}

#[test]
fn get_ping_with_hello_script() {
    let (mut ex, a) = Execution::start(&get_ping(), "print(\"hello\")");
    match a {
        Action::Connect(p) => {
            assert_eq!(p.method, reqwest::Method::GET);
            assert_eq!(p.url, "http://example.test/ping");
            assert_eq!(p.body, "");
            assert_eq!(p.headers.get("content-type").unwrap(), "application/json");
        },
        _ => panic!("expected a connect action"),
    }
    match run_to_script(&mut ex, 200, b"pong") {
        Action::RunScript { script, status_code } => {
            assert_eq!(script, "print(\"hello\")");
            assert_eq!(status_code, 200);
        },
        _ => panic!("expected the script to run"),
    }
    let report = ScriptReport::finished(vec!["hello".to_string()]);
    match ex.step(Event::ScriptFinished(report)) {
        Action::Deliver(o) => assert_eq!(o, completed("pong")),
        _ => panic!("expected delivery"),
    }
    assert_eq!(ex.phase(), Phase::Done);
    let report = ex.report().unwrap();
    assert_eq!(report.log, vec!["hello".to_string()]);
    assert!(report.error.is_none());
}

#[test]
fn status_404_is_bound_and_response_still_completes() {
    let (mut ex, _) = Execution::start(&get_ping(), "print(status_code)");
    match run_to_script(&mut ex, 404, b"not found") {
        Action::RunScript { status_code, .. } => assert_eq!(status_code, 404),
        _ => panic!("expected the script to run"),
    }
    let report = ScriptReport::finished(vec!["404".to_string()]);
    match ex.step(Event::ScriptFinished(report)) {
        Action::Deliver(o) => assert_eq!(o, completed("not found")),
        _ => panic!("expected delivery"),
    }
}

#[test]
fn broken_script_does_not_change_response() {
    let (mut ex, _) = Execution::start(&get_ping(), "print(");
    assert!(matches!(run_to_script(&mut ex, 200, b"body"), Action::RunScript { .. }));
    let err = parse_script("print(").err().unwrap();
    let report = ScriptReport::failed(vec![], err);
    match ex.step(Event::ScriptFinished(report)) {
        Action::Deliver(o) => assert_eq!(o, completed("body")),
        _ => panic!("expected delivery"),
    }
    assert!(matches!(ex.report().unwrap().error, Some(ScriptError::Parse { .. })));
}

#[test]
fn eval_error_does_not_change_response() {
    let (mut ex, _) = Execution::start(&get_ping(), "fail(\"x\")");
    assert!(matches!(run_to_script(&mut ex, 500, b"oops"), Action::RunScript { .. }));
    let report =
        ScriptReport::failed(vec![], ScriptError::Eval { message: "fail: x".to_string() });
    match ex.step(Event::ScriptFinished(report)) {
        Action::Deliver(o) => assert_eq!(o, completed("oops")),
        _ => panic!("expected delivery"),
    }
}

#[test]
fn unreachable_host_fails_without_script() {
    let (mut ex, _) = Execution::start(&get_ping(), "print(\"hello\")");
    match ex.step(Event::ConnectFailed) {
        Action::Deliver(o) => assert_eq!(o, failed("connect error")),
        _ => panic!("expected delivery"),
    }
    assert_eq!(ex.phase(), Phase::Aborted);
    assert!(matches!(ex.step(Event::BodyEnded), Action::Wait));
    assert!(matches!(ex.step(Event::ScriptFinished(ScriptReport::finished(vec![]))), Action::Wait));
    assert!(ex.report().is_none());
}

#[test]
fn handshake_and_send_failures() {
    let (mut ex, _) = Execution::start(&get_ping(), "");
    match ex.step(Event::HandshakeFailed) {
        Action::Deliver(o) => assert_eq!(o, failed("handshake error")),
        _ => panic!("expected delivery"),
    }
    let (mut ex, _) = Execution::start(&get_ping(), "");
    assert!(matches!(ex.step(Event::Connected), Action::Send));
    match ex.step(Event::SendFailed("connection closed before message completed".to_string())) {
        Action::Deliver(o) => assert_eq!(o, failed("connection closed before message completed")),
        _ => panic!("expected delivery"),
    }
}

#[test]
fn read_failure_and_bad_encoding_abort() {
    let (mut ex, _) = Execution::start(&get_ping(), "");
    ex.step(Event::Connected);
    ex.step(Event::ResponseHead(200));
    ex.step(Event::Frame(b"abc".to_vec()));
    match ex.step(Event::ReadFailed("reset".to_string())) {
        Action::Deliver(o) => assert_eq!(o, failed("reset")),
        _ => panic!("expected delivery"),
    }
    let (mut ex, _) = Execution::start(&get_ping(), "");
    match run_to_script(&mut ex, 200, &[0xff, 0xfe]) {
        Action::Deliver(o) => assert_eq!(o, failed("invalid encoding")),
        _ => panic!("expected delivery"),
    }
    assert_eq!(ex.phase(), Phase::Aborted);
}

#[test]
fn invalid_header_aborts_before_connecting() {
    let mut req = get_ping();
    req.headers = HttpHeaders::from_entries(vec![HttpHeaderEntry::new(
        "bad key".to_string(),
        "v".to_string(),
    )]);
    let (ex, a) = Execution::start(&req, "print(\"hello\")");
    match a {
        Action::Deliver(o) => assert_eq!(o, failed("invalid header: bad key")),
        _ => panic!("expected delivery"),
    }
    assert_eq!(ex.phase(), Phase::Aborted);
}

#[test]
fn cancel_ends_execution() {
    let (mut ex, _) = Execution::start(&get_ping(), "");
    ex.step(Event::Connected);
    match ex.step(Event::Cancel) {
        Action::Deliver(o) => assert_eq!(o, failed("cancelled")),
        _ => panic!("expected delivery"),
    }
    assert!(matches!(ex.step(Event::ResponseHead(200)), Action::Wait));
}

#[test]
fn out_of_order_events_are_ignored() {
    let (mut ex, _) = Execution::start(&get_ping(), "");
    assert!(matches!(ex.step(Event::BodyEnded), Action::Wait));
    assert!(matches!(ex.step(Event::ResponseHead(200)), Action::Wait));
    assert_eq!(ex.phase(), Phase::Connecting);
}

#[test]
fn targets_default_ports_by_scheme() {
    assert_eq!(connect_target("http://example.test/ping"), Some(("example.test".to_string(), 80)));
    assert_eq!(connect_target("https://Example.TEST/a"), Some(("example.test".to_string(), 443)));
    assert_eq!(connect_target("http://example.test:8080/"), Some(("example.test".to_string(), 8080)));
    assert_eq!(connect_target("http://example.test:80/"), Some(("example.test".to_string(), 80)));
    assert_eq!(connect_target("http://10.0.0.1:9/x"), Some(("10.0.0.1".to_string(), 9)));
}

#[test]
fn targets_that_cannot_be_reached() {
    assert_eq!(connect_target("not a url"), None);
    assert_eq!(connect_target(""), None);
    assert_eq!(connect_target("file:///tmp/x"), None);
    assert_eq!(connect_target("ftp://example.test/"), None);
}

#[test]
fn url_without_host_aborts_before_connecting() {
    let mut req = get_ping();
    req.url = "example.test/ping".to_string();
    let (ex, a) = Execution::start(&req, "");
    match a {
        Action::Deliver(o) => assert_eq!(o, failed("connect error")),
        _ => panic!("expected delivery"),
    }
    assert_eq!(ex.phase(), Phase::Aborted);
}

#[test]
fn prepared_request_carries_target() {
    let mut req = get_ping();
    req.url = "http://example.test:8081/ping".to_string();
    match Execution::start(&req, "").1 {
        Action::Connect(p) => {
            assert_eq!(p.host, "example.test");
            assert_eq!(p.port, 8081);
        },
        _ => panic!("expected a connect action"),
    }
}

#[test]
fn hello_script_prints_hello() {
    let r = run_script("print(\"hello\")", 200);
    assert_eq!(r.log, vec!["hello".to_string()]);
    assert!(r.error.is_none());
}

#[test]
fn status_code_is_bound() {
    let r = run_script("print(status_code)", 404);
    assert_eq!(r.log, vec!["404".to_string()]);
    assert!(r.error.is_none());
    let r = run_script("print(status_code + 1)", 200);
    assert_eq!(r.log, vec!["201".to_string()]);
}

#[test]
fn unparsable_script_reports_parse_error() {
    let r = run_script("print(", 200);
    assert!(r.log.is_empty());
    assert!(matches!(r.error, Some(ScriptError::Parse { .. })));
}

#[test]
fn runtime_error_keeps_earlier_lines() {
    let r = run_script("print(\"a\")\nprint(1 // 0)\nprint(\"b\")", 200);
    assert_eq!(r.log, vec!["a".to_string()]);
    assert!(matches!(r.error, Some(ScriptError::Eval { .. })));
}

#[test]
fn only_print_is_available() {
    let r = run_script("print(len(\"ab\"))", 200);
    assert!(r.log.is_empty());
    assert!(r.error.is_some());
}

#[test]
fn same_script_twice_gives_same_report() {
    let rt = ScriptRuntime::new();
    let text = "x = status_code * 2\nprint(x)\nprint(\"done\")";
    let first = rt.run(text, 21);
    let second = rt.run(text, 21);
    assert_eq!(first, second);
    assert_eq!(first.log, vec!["42".to_string(), "done".to_string()]);
    let third = rt.run("print(x)", 21);
    assert!(third.log.is_empty());
    assert!(matches!(third.error, Some(ScriptError::Eval { .. }) | Some(ScriptError::Parse { .. })));
}

#[test]
fn scripted_execution_end_to_end() {
    let rt = ScriptRuntime::new();
    let (mut ex, _) = Execution::start(&get_ping(), "print(status_code)");
    let report = match run_to_script(&mut ex, 404, b"missing") {
        Action::RunScript { script, status_code } => rt.run(&script, status_code),
        _ => panic!("expected the script to run"),
    };
    assert_eq!(report.log, vec!["404".to_string()]);
    match ex.step(Event::ScriptFinished(report)) {
        Action::Deliver(o) => assert_eq!(o, completed("missing")),
        _ => panic!("expected delivery"),
    }
}
