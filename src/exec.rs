use vstd::prelude::*;
use vstd::utf8::{decode_utf8, valid_utf8};
use crate::encode::{
    all_rows_valid, encode_headers, first_invalid_key, header_map_entries, request_header_entries, EncodeError,
};
use crate::headers::{HeaderRow, HttpHeaders};
use crate::method::{method_name, reqwest_method_of, HttpMethod};
use crate::response::{invalid_encoding_reason, ResponseAssembler, ResponseOutcome};
use crate::script::ScriptReport;
use crate::target::{connect_target, target_of};
use reqwest::header::HeaderMap;

verus! {

/// A request as the user composed it. The engine reads a copy per execution.
#[derive(Debug, Clone)]
pub struct RequestDescriptor {
    pub method: HttpMethod,
    pub headers: HttpHeaders,
    pub url: String,
    pub body: String,
}

/// A request ready for the transport: method, target, headers and body.
pub struct PreparedRequest {
    pub method: reqwest::Method,
    pub url: String,
    /// The host to connect to.
    pub host: String,
    /// The port to connect to: the URL's own, or its scheme's default.
    pub port: u16,
    pub headers: HeaderMap,
    pub body: String,
}

/// Where an execution stands.
#[derive(Debug, Clone, Copy, PartialEq, Eq, Structural)]
pub enum Phase {
    Connecting,
    Sending,
    Receiving,
    Scripting,
    Done,
    Aborted,
}

/// What the transport or the script runner reports back.
#[derive(Debug, Clone, PartialEq, Eq)]
pub enum Event {
    /// The connection is open and the handshake is done.
    Connected,
    /// The host could not be reached.
    ConnectFailed,
    /// The connection opened but the protocol handshake failed.
    HandshakeFailed,
    /// The request was sent and the response head came back with this status.
    ResponseHead(u16),
    /// Sending the request failed, for this reason.
    SendFailed(String),
    /// One chunk of the response body.
    Frame(Vec<u8>),
    /// Reading the body failed, for this reason.
    ReadFailed(String),
    /// The body is complete.
    BodyEnded,
    /// The post-response script ran, with this result.
    ScriptFinished(ScriptReport),
    /// The caller gave up on the execution.
    Cancel,
}

/// What the engine asks of its driver next.
pub enum Action {
    /// Open a connection and send this request.
    Connect(PreparedRequest),
    /// Send the request on the open connection.
    Send,
    /// Read the next body frame.
    ReadFrame,
    /// Run the script with the response's status code bound to `status_code`.
    RunScript { script: String, status_code: u16 },
    /// The execution is over: hand this outcome to the caller.
    Deliver(ResponseOutcome),
    /// Nothing to do: the event did not apply in this phase.
    Wait,
}

/// The state of one execution, from the transport's point of view.
pub struct ExecView {
    pub phase: Phase,
    pub script: Seq<char>,
    pub status: u16,
    pub body: Seq<u8>,
    pub text: Seq<char>,
    pub report: Option<ScriptReport>,
}

/// One single-shot execution of a request and its post-response script.
pub struct Execution {
    phase: Phase,
    script: String,
    status: u16,
    body: ResponseAssembler,
    text: String,
    report: Option<ScriptReport>,
}

impl View for Execution {
    type V = ExecView;

    closed spec fn view(&self) -> ExecView {
        ExecView {
            phase: self.phase,
            script: self.script@,
            status: self.status,
            body: self.body@,
            text: self.text@,
            report: self.report,
        }
    }
}

/// `a` delivers a failure with this reason.
pub open spec fn delivers_failure(a: Action, reason: Seq<char>) -> bool {
    a matches Action::Deliver(ResponseOutcome::Failed(m)) && m@ == reason
}

/// An execution that has ended with a failure.
pub open spec fn aborted(old: ExecView, new: ExecView) -> bool {
    new == ExecView { phase: Phase::Aborted, ..old }
}

/// How an execution moves on one event: the new state and the action.
pub open spec fn step_spec(old: ExecView, ev: Event, new: ExecView, a: Action) -> bool {
    match (old.phase, ev) {
        (Phase::Done, _) | (Phase::Aborted, _) => new == old && a is Wait,
        (_, Event::Cancel) => aborted(old, new) && delivers_failure(a, "cancelled"@),
        (Phase::Connecting, Event::Connected) => new == ExecView { phase: Phase::Sending, ..old }
            && a is Send,
        (Phase::Connecting, Event::ConnectFailed) => aborted(old, new) && delivers_failure(
            a,
            "connect error"@,
        ),
        (Phase::Connecting, Event::HandshakeFailed) => aborted(old, new) && delivers_failure(
            a,
            "handshake error"@,
        ),
        (Phase::Sending, Event::ResponseHead(s)) => new == ExecView {
            phase: Phase::Receiving,
            status: s,
            ..old
        } && a is ReadFrame,
        (Phase::Sending, Event::SendFailed(reason)) => aborted(old, new) && delivers_failure(
            a,
            reason@,
        ),
        (Phase::Receiving, Event::Frame(d)) => new == ExecView { body: old.body + d@, ..old }
            && a is ReadFrame,
        (Phase::Receiving, Event::ReadFailed(reason)) => aborted(old, new) && delivers_failure(
            a,
            reason@,
        ),
        (Phase::Receiving, Event::BodyEnded) => if valid_utf8(old.body) {
            &&& new == ExecView { phase: Phase::Scripting, text: decode_utf8(old.body), ..old }
            &&& a matches Action::RunScript { script, status_code }
            &&& script@ == old.script
            &&& status_code == old.status
        } else {
            aborted(old, new) && delivers_failure(a, invalid_encoding_reason())
        },
        (Phase::Scripting, Event::ScriptFinished(r)) => {
            &&& new == ExecView { phase: Phase::Done, report: Some(r), ..old }
            &&& a matches Action::Deliver(ResponseOutcome::Completed(t))
            &&& t@ == old.text
        },
        _ => new == old && a is Wait,
    }
}

/// The failure reason for a header row with key `k` that cannot be sent.
pub open spec fn invalid_header_reason(k: Seq<char>) -> Seq<char> {
    "invalid header: "@ + k
}

/// Builds a failure outcome action.
fn fail(reason: &str) -> (a: Action)
    ensures
        delivers_failure(a, reason@),
{
    Action::Deliver(ResponseOutcome::Failed(reason.to_string()))
}

impl Execution {
    /// Starts an execution: encodes the request, resolves where it goes and,
    /// when both succeed, asks for a connection. Invalid header data, and a
    /// URL with no host to connect to, abort before any I/O.
    pub fn start(req: &RequestDescriptor, script: &str) -> (r: (Execution, Action))
        ensures
            r.0@.script == script@,
            r.0@.body.len() == 0,
            r.0@.report is None,
            r.1 matches Action::Connect(p) ==> {
                &&& r.0@.phase == Phase::Connecting
                &&& p.method == reqwest_method_of(method_name(req.method))
                &&& p.url@ == req.url@
                &&& target_of(req.url@) == Some((p.host@, p.port))
                &&& p.body@ == req.body@
                &&& header_map_entries(p.headers) == request_header_entries(req.headers@)
            },
            r.1 is Deliver ==> r.0@.phase == Phase::Aborted,
            r.1 is Connect || r.1 is Deliver,
            !all_rows_valid(req.headers@) ==> (r.1 matches Action::Deliver(
                ResponseOutcome::Failed(m),
            ) && exists|k: Seq<char>|
                first_invalid_key(req.headers@, k) && m@ == #[trigger] invalid_header_reason(k)),
            all_rows_valid(req.headers@) && target_of(req.url@) is Some ==> (r.1 is Connect
                || delivers_failure(r.1, "too many headers"@)),
            all_rows_valid(req.headers@) && target_of(req.url@) is None ==> (delivers_failure(
                r.1,
                "connect error"@,
            ) || delivers_failure(r.1, "too many headers"@)),
            all_rows_valid(req.headers@) && req.headers@.len() < 4096 && target_of(req.url@) is Some
                ==> r.1 is Connect,
            all_rows_valid(req.headers@) && req.headers@.len() < 4096 && target_of(req.url@) is None
                ==> delivers_failure(r.1, "connect error"@),
    {
        let headers = encode_headers(&req.headers);
        let mut ex = Execution {
            phase: Phase::Connecting,
            script: script.to_string(),
            status: 0,
            body: ResponseAssembler::new(),
            text: String::new(),
            report: None,
        };
        match headers {
            Ok(h) => match connect_target(req.url.as_str()) {
                Some((host, port)) => {
                    let p = PreparedRequest {
                        method: req.method.to_reqwest(),
                        url: req.url.clone(),
                        host,
                        port,
                        headers: h,
                        body: req.body.clone(),
                    };
                    (ex, Action::Connect(p))
                },
                None => {
                    ex.phase = Phase::Aborted;
                    (ex, fail("connect error"))
                },
            },
            Err(e) => {
                ex.phase = Phase::Aborted;
                match e {
                    EncodeError::InvalidHeader(k) => {
                        let mut reason = String::from_str("invalid header: ");
                        reason.append(k.as_str());
                        assert(first_invalid_key(req.headers@, k@));
                        assert(reason@ == invalid_header_reason(k@));
                        (ex, Action::Deliver(ResponseOutcome::Failed(reason)))
                    },
                    EncodeError::TooManyHeaders => (ex, fail("too many headers")),
                }
            },
        }
    }

    pub fn phase(&self) -> (r: Phase)
        ensures
            r == self@.phase,
    {
        self.phase
    }

    /// The script's report, once the script has run.
    pub fn report(&self) -> (r: Option<&ScriptReport>)
        ensures
            r is None <==> self@.report is None,
            r matches Some(x) ==> self@.report == Some(*x),
    {
        match &self.report {
            Some(x) => Some(x),
            None => None,
        }
    }

    /// Moves the execution on by one event. Script problems never change the
    /// delivered response: once the body is decoded, the script's report is
    /// recorded and the text is delivered as it was received.
    pub fn step(&mut self, ev: Event) -> (a: Action)
        ensures
            step_spec(old(self)@, ev, final(self)@, a),
    {
        match self.phase {
            Phase::Done | Phase::Aborted => {
                return Action::Wait;
            },
            _ => {},
        }
        match ev {
            Event::Cancel => {
                self.phase = Phase::Aborted;
                fail("cancelled")
            },
            Event::Connected => {
                if self.phase == Phase::Connecting {
                    self.phase = Phase::Sending;
                    Action::Send
                } else {
                    Action::Wait
                }
            },
            Event::ConnectFailed => {
                if self.phase == Phase::Connecting {
                    self.phase = Phase::Aborted;
                    fail("connect error")
                } else {
                    Action::Wait
                }
            },
            Event::HandshakeFailed => {
                if self.phase == Phase::Connecting {
                    self.phase = Phase::Aborted;
                    fail("handshake error")
                } else {
                    Action::Wait
                }
            },
            Event::ResponseHead(s) => {
                if self.phase == Phase::Sending {
                    self.phase = Phase::Receiving;
                    self.status = s;
                    Action::ReadFrame
                } else {
                    Action::Wait
                }
            },
            Event::SendFailed(reason) => {
                if self.phase == Phase::Sending {
                    self.phase = Phase::Aborted;
                    Action::Deliver(ResponseOutcome::Failed(reason))
                } else {
                    Action::Wait
                }
            },
            Event::Frame(d) => {
                if self.phase == Phase::Receiving {
                    self.body.push_frame(d.as_slice());
                    Action::ReadFrame
                } else {
                    Action::Wait
                }
            },
            Event::ReadFailed(reason) => {
                if self.phase == Phase::Receiving {
                    self.phase = Phase::Aborted;
                    Action::Deliver(ResponseOutcome::Failed(reason))
                } else {
                    Action::Wait
                }
            },
            Event::BodyEnded => {
                if self.phase == Phase::Receiving {
                    match self.body.finish() {
                        ResponseOutcome::Completed(t) => {
                            self.phase = Phase::Scripting;
                            self.text = t;
                            Action::RunScript { script: self.script.clone(), status_code: self.status }
                        },
                        ResponseOutcome::Failed(m) => {
                            self.phase = Phase::Aborted;
                            Action::Deliver(ResponseOutcome::Failed(m))
                        },
                    }
                } else {
                    Action::Wait
                }
            },
            Event::ScriptFinished(r) => {
                if self.phase == Phase::Scripting {
                    self.phase = Phase::Done;
                    self.report = Some(r);
                    Action::Deliver(ResponseOutcome::Completed(self.text.clone()))
                } else {
                    Action::Wait
                }
            },
        }
    }
}

/// A connection failure ends the execution with "connect error"; after it no
/// event does anything, so the script is never run.
pub proof fn lemma_connect_failure_is_final(
    old: ExecView,
    new: ExecView,
    a: Action,
    ev: Event,
    later: ExecView,
    b: Action,
)
    requires
        old.phase == Phase::Connecting,
        step_spec(old, Event::ConnectFailed, new, a),
        step_spec(new, ev, later, b),
    ensures
        delivers_failure(a, "connect error"@),
        new.phase == Phase::Aborted,
        later == new,
        b is Wait,
{
}

/// The script phase is entered only from a completely received body that
/// decoded as text.
pub proof fn lemma_script_only_after_body(old: ExecView, ev: Event, new: ExecView, a: Action)
    requires
        step_spec(old, ev, new, a),
        old.phase != Phase::Scripting,
        new.phase == Phase::Scripting || a is RunScript,
    ensures
        old.phase == Phase::Receiving,
        ev is BodyEnded,
        valid_utf8(old.body),
        new.text == decode_utf8(old.body),
{
}

/// Whatever the script reports, a parse error, a runtime error or a clean
/// run, the response that is delivered is the one that was received.
pub proof fn lemma_script_never_changes_response(
    old: ExecView,
    r1: ScriptReport,
    new1: ExecView,
    a1: Action,
    r2: ScriptReport,
    new2: ExecView,
    a2: Action,
)
    requires
        old.phase == Phase::Scripting,
        step_spec(old, Event::ScriptFinished(r1), new1, a1),
        step_spec(old, Event::ScriptFinished(r2), new2, a2),
    ensures
        a1 matches Action::Deliver(ResponseOutcome::Completed(t1)) && t1@ == old.text,
        a2 matches Action::Deliver(ResponseOutcome::Completed(t2)) && t2@ == old.text,
        new1.text == new2.text,
        new1.phase == Phase::Done && new2.phase == Phase::Done,
{
}

} // verus!
