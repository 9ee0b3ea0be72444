use vstd::prelude::*;
use crate::exec::RequestDescriptor;
use crate::headers::{rows_of, HeaderRow, HttpHeaderEntry, HttpHeaders};
use crate::method::HttpMethod;
use crate::tabs::headers;

verus! {

/// The tabs of a request view.
#[derive(Debug, Clone, Copy, PartialEq, Eq, Structural)]
pub enum TabId {
    Body,
    Headers,
    Response,
    Script,
}

/// What the user did in a request view, or what came back for it. Editor
/// contents arrive as the whole text after the edit.
#[derive(Debug, Clone)]
pub enum Message {
    Noop,
    SendRequest,
    RequestCompleted(String),
    RequestFailed(String),
    HttpMethodSelected(HttpMethod),
    UrlInputChanged(String),
    TabSelected(TabId),
    BodyChanged(String),
    ResponseChanged(String),
    ScriptChanged(String),
    HeadersTabMessage(headers::Message),
}

/// Work that a view asks its driver to do.
pub enum Command {
    Idle,
    /// Run this request, then this post-response script, and report back.
    Execute { request: RequestDescriptor, script: String },
}

/// What a request view holds.
pub struct HttpState {
    pub title: Seq<char>,
    pub url: Seq<char>,
    pub method: HttpMethod,
    pub headers: Seq<HeaderRow>,
    pub active_tab: TabId,
    pub body: Seq<char>,
    pub response: Seq<char>,
    pub script: Seq<char>,
}

/// One request being composed, with its last response.
pub struct Http {
    title: String,
    url_input: String,
    selected_http_method: HttpMethod,
    headers_tab: headers::Tab,
    active_tab: TabId,
    body: String,
    response: String,
    script: String,
}

impl View for Http {
    type V = HttpState;

    closed spec fn view(&self) -> HttpState {
        HttpState {
            title: self.title@,
            url: self.url_input@,
            method: self.selected_http_method,
            headers: self.headers_tab.headers@,
            active_tab: self.active_tab,
            body: self.body@,
            response: self.response@,
            script: self.script@,
        }
    }
}

/// `c` runs the request that the view describes, with its script.
pub open spec fn executes(s: HttpState, c: Command) -> bool {
    &&& c matches Command::Execute { request, script }
    &&& request.method == s.method
    &&& request.headers@ == s.headers
    &&& request.url@ == s.url
    &&& request.body@ == s.body
    &&& script@ == s.script
}

/// How a request view changes on one message, and the command it gives.
pub open spec fn update_spec(old: HttpState, m: Message, new: HttpState, c: Command) -> bool {
    match m {
        Message::SendRequest => new == old && executes(old, c),
        _ => c is Idle && match m {
            Message::RequestCompleted(t) => new == HttpState { response: t@, ..old },
            Message::RequestFailed(t) => new == HttpState { response: t@, ..old },
            Message::HttpMethodSelected(x) => new == HttpState { method: x, ..old },
            Message::UrlInputChanged(u) => new == HttpState { url: u@, ..old },
            Message::TabSelected(t) => new == HttpState { active_tab: t, ..old },
            Message::BodyChanged(t) => new == HttpState { body: t@, ..old },
            Message::ResponseChanged(t) => new == HttpState { response: t@, ..old },
            Message::ScriptChanged(t) => new == HttpState { script: t@, ..old },
            Message::HeadersTabMessage(h) => new == HttpState {
                headers: headers::edited_rows(old.headers, h),
                ..old
            },
            _ => new == old,
        },
    }
}

impl Http {
    /// A fresh request view: GET, empty URL, body and script, the default
    /// headers, and the body tab showing.
    pub fn new(title: String) -> (r: Http)
        ensures
            r@.title == title@,
            r@.url.len() == 0,
            r@.method == HttpMethod::Get,
            r@.headers == seq![HeaderRow { key: "Content-Type"@, value: "application/json"@ }],
            r@.active_tab == TabId::Body,
            r@.body.len() == 0,
            r@.response.len() == 0,
            r@.script.len() == 0,
    {
        Http {
            title,
            url_input: String::new(),
            selected_http_method: HttpMethod::Get,
            headers_tab: headers::Tab::new(),
            active_tab: TabId::Body,
            body: String::new(),
            response: String::new(),
            script: String::new(),
        }
    }

    pub fn title(&self) -> (r: String)
        ensures
            r@ == self@.title,
    {
        self.title.clone()
    }

    pub fn url(&self) -> (r: &str)
        ensures
            r@ == self@.url,
    {
        self.url_input.as_str()
    }

    pub fn method(&self) -> (r: HttpMethod)
        ensures
            r == self@.method,
    {
        self.selected_http_method
    }

    pub fn headers(&self) -> (r: &HttpHeaders)
        ensures
            r@ == self@.headers,
    {
        &self.headers_tab.headers
    }

    pub fn active_tab(&self) -> (r: TabId)
        ensures
            r == self@.active_tab,
    {
        self.active_tab
    }

    pub fn body(&self) -> (r: &str)
        ensures
            r@ == self@.body,
    {
        self.body.as_str()
    }

    pub fn response(&self) -> (r: &str)
        ensures
            r@ == self@.response,
    {
        self.response.as_str()
    }

    pub fn script(&self) -> (r: &str)
        ensures
            r@ == self@.script,
    {
        self.script.as_str()
    }

    /// A copy of the request as it stands, for one execution.
    pub fn snapshot(&self) -> (r: RequestDescriptor)
        ensures
            r.method == self@.method,
            r.headers@ == self@.headers,
            r.url@ == self@.url,
            r.body@ == self@.body,
    {
        let n = self.headers_tab.headers.len();
        let mut rows: Vec<HttpHeaderEntry> = Vec::new();
        let mut i: usize = 0;
        while i < n
            invariant
                n == self@.headers.len(),
                i <= n,
                rows@.len() == i,
                rows_of(rows@) == self@.headers.take(i as int),
            decreases n - i,
        {
            let e = self.headers_tab.headers.get(i).unwrap();
            let copy = HttpHeaderEntry::new(e.key(), e.value());
            assert(copy@ == self@.headers[i as int]);
            let ghost before = rows@;
            rows.push(copy);
            assert(rows@ =~= before.push(copy));
            assert forall|j: int| 0 <= j < i + 1 implies #[trigger] rows_of(rows@)[j]
                == self@.headers.take(i + 1)[j] by {
                if j < i {
                    assert(rows@[j] == before[j]);
                    assert(rows_of(before)[j] == self@.headers.take(i as int)[j]);
                } else {
                    assert(rows@[j] == copy);
                }
            }
            assert(rows_of(rows@) =~= self@.headers.take(i + 1));
            i = i + 1;
        }
        assert(self@.headers.take(n as int) =~= self@.headers);
        RequestDescriptor {
            method: self.selected_http_method,
            headers: HttpHeaders::from_entries(rows),
            url: self.url_input.clone(),
            body: self.body.clone(),
        }
    }

    /// Applies one message. Sending asks for an execution of a copy of the
    /// request and script as they stand; the view itself is not changed until
    /// the result comes back.
    pub fn update(&mut self, message: Message) -> (c: Command)
        ensures
            update_spec(old(self)@, message, final(self)@, c),
    {
        match message {
            Message::Noop => Command::Idle,
            Message::SendRequest => {
                let request = self.snapshot();
                Command::Execute { request, script: self.script.clone() }
            },
            Message::RequestCompleted(t) => {
                self.response = t;
                Command::Idle
            },
            Message::RequestFailed(t) => {
                self.response = t;
                Command::Idle
            },
            Message::HttpMethodSelected(m) => {
                self.selected_http_method = m;
                Command::Idle
            },
            Message::UrlInputChanged(u) => {
                self.url_input = u;
                Command::Idle
            },
            Message::TabSelected(t) => {
                self.active_tab = t;
                Command::Idle
            },
            Message::BodyChanged(t) => {
                self.body = t;
                Command::Idle
            },
            Message::ResponseChanged(t) => {
                self.response = t;
                Command::Idle
            },
            Message::ScriptChanged(t) => {
                self.script = t;
                Command::Idle
            },
            Message::HeadersTabMessage(h) => {
                self.headers_tab.update(h);
                Command::Idle
            },
        }
    }
}

} // verus!
