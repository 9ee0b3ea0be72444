use merpati::exec::{Action, Execution};
use merpati::http::{Command, Http, Message, TabId};
use merpati::method::HttpMethod;
use merpati::stage::{Message as StageMessage, Stage};
use merpati::tabs::headers::{Message as HeadersMessage, Tab};

#[test]
fn new_view_defaults() {
    let h = Http::new("Request #1".to_string());
    assert_eq!(h.title(), "Request #1");
    assert_eq!(h.method(), HttpMethod::Get);
    assert_eq!(h.url(), "");
    assert_eq!(h.active_tab(), TabId::Body);
    assert_eq!(h.headers().len(), 1);
}

#[test]
fn send_snapshots_the_request() {
    let mut h = Http::new("t".to_string());
    h.update(Message::HttpMethodSelected(HttpMethod::Post));
    h.update(Message::UrlInputChanged("http://example.test/items".to_string()));
    h.update(Message::BodyChanged("{\"a\":1}".to_string()));
    h.update(Message::ScriptChanged("print(status_code)".to_string()));
    h.update(Message::HeadersTabMessage(HeadersMessage::NewHeader));
    h.update(Message::HeadersTabMessage(HeadersMessage::KeyChanged(1, "X-Id".to_string())));
    h.update(Message::HeadersTabMessage(HeadersMessage::ValueChanged(1, "7".to_string())));
    match h.update(Message::SendRequest) {
        Command::Execute { request, script } => {
            assert_eq!(request.method, HttpMethod::Post);
            assert_eq!(request.url, "http://example.test/items");
            assert_eq!(request.body, "{\"a\":1}");
            assert_eq!(request.headers.len(), 2);
            assert_eq!(request.headers.get(1).unwrap().key(), "X-Id");
            assert_eq!(script, "print(status_code)");
            let (_, a) = Execution::start(&request, &script);
            match a {
                Action::Connect(p) => {
                    assert_eq!(p.method, reqwest::Method::POST);
                    assert_eq!(p.headers.get("x-id").unwrap(), "7");
                },
                _ => panic!("expected a connect action"),
            }
        },
        Command::Idle => panic!("expected an execution"),
    }
    h.update(Message::UrlInputChanged("changed".to_string()));
    assert_eq!(h.url(), "changed");
}

#[test]
fn responses_are_shown() {
    let mut h = Http::new("t".to_string());
    assert!(matches!(h.update(Message::RequestCompleted("pong".to_string())), Command::Idle));
    assert_eq!(h.response(), "pong");
    h.update(Message::RequestFailed("connect error".to_string()));
    assert_eq!(h.response(), "connect error");
    h.update(Message::TabSelected(TabId::Response));
    assert_eq!(h.active_tab(), TabId::Response);
    h.update(Message::Noop);
    assert_eq!(h.response(), "connect error");
}

#[test]
fn header_tab_edits() {
    let mut t = Tab::new();
    t.update(HeadersMessage::NewHeader);
    t.update(HeadersMessage::KeyChanged(1, "Accept".to_string()));
    t.update(HeadersMessage::ValueChanged(1, "*/*".to_string()));
    t.update(HeadersMessage::KeyChanged(9, "ignored".to_string()));
    assert_eq!(t.headers.len(), 2);
    assert_eq!(t.headers.get(1).unwrap().value(), "*/*");
    t.update(HeadersMessage::KeyChanged(0, String::new()));
    assert!(t.headers.get(0).unwrap().is_idle());
}

#[test]
fn stage_titles_count_from_one() {
    let mut s = Stage::new();
    for _ in 0..10 {
        s.update(StageMessage::TabNew);
    }
    assert_eq!(s.len(), 10);
    assert_eq!(s.tab(0).unwrap().title(), "Request #1");
    assert_eq!(s.tab(1).unwrap().title(), "Request #2");
    assert_eq!(s.tab(9).unwrap().title(), "Request #10");
    assert_eq!(s.tab(9).unwrap().headers().get(0).unwrap().key(), "Content-Type");
}

#[test]
fn stage_close_and_select() {
    let mut s = Stage::new();
    s.update(StageMessage::TabNew);
    s.update(StageMessage::TabNew);
    s.update(StageMessage::TabClose(5));
    assert_eq!(s.len(), 2);
    s.update(StageMessage::TabClose(0));
    assert_eq!(s.len(), 1);
    assert_eq!(s.tab(0).unwrap().title(), "Request #2");
    s.update(StageMessage::TabSelect(0));
    assert_eq!(s.selected_tab(), 0);
}

#[test]
fn stage_forwards_to_selected_tab() {
    let mut s = Stage::new();
    assert!(matches!(s.update(StageMessage::Http(Message::SendRequest)), Command::Idle));
    s.update(StageMessage::TabNew);
    s.update(StageMessage::TabNew);
    s.update(StageMessage::TabSelect(1));
    s.update(StageMessage::Http(Message::UrlInputChanged("http://x.test/".to_string())));
    assert_eq!(s.tab(1).unwrap().url(), "http://x.test/");
    assert_eq!(s.tab(0).unwrap().url(), "");
    assert!(matches!(s.update(StageMessage::Http(Message::SendRequest)), Command::Execute { .. }));
}
