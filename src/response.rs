use vstd::prelude::*;
use vstd::utf8::{decode_utf8, valid_utf8};

verus! {

/// How one execution ended: the response text, or why there is none.
#[derive(Debug, Clone, PartialEq, Eq)]
pub enum ResponseOutcome {
    Completed(String),
    Failed(String),
}

/// One read from a response body stream: a chunk of bytes, or the reason the
/// read failed.
#[derive(Debug, Clone, PartialEq, Eq)]
pub enum Frame {
    Data(Vec<u8>),
    Error(String),
}

/// The received body of a completed request.
#[derive(Debug, Clone)]
pub struct HttpResponse {
    pub response_text: String,
}

pub open spec fn invalid_encoding_reason() -> Seq<char> {
    "invalid encoding"@
}

/// `r` is the outcome of decoding a complete body: its text when the bytes
/// are valid UTF-8, else the failure "invalid encoding" (never a lossy text).
pub open spec fn is_decoded_outcome(body: Seq<u8>, r: ResponseOutcome) -> bool {
    if valid_utf8(body) {
        r matches ResponseOutcome::Completed(t) && t@ == decode_utf8(body)
    } else {
        r matches ResponseOutcome::Failed(m) && m@ == invalid_encoding_reason()
    }
}

/// The bytes of the data frames, in arrival order.
pub open spec fn frames_body(frames: Seq<Frame>) -> Seq<u8>
    decreases frames.len(),
{
    if frames.len() == 0 {
        Seq::empty()
    } else {
        let before = frames_body(frames.drop_last());
        match frames.last() {
            Frame::Data(d) => before + d@,
            Frame::Error(_) => before,
        }
    }
}

/// The position of the first failed read, if any.
pub open spec fn first_error(frames: Seq<Frame>) -> Option<int>
    decreases frames.len(),
{
    if frames.len() == 0 {
        None
    } else {
        match first_error(frames.drop_last()) {
            Some(i) => Some(i),
            None => if frames.last() is Error {
                Some(frames.len() - 1)
            } else {
                None
            },
        }
    }
}

/// `r` is the outcome of a body that arrives as these frames.
pub open spec fn is_assembled_outcome(frames: Seq<Frame>, r: ResponseOutcome) -> bool {
    match first_error(frames) {
        Some(i) => frames[i] matches Frame::Error(reason) && r == ResponseOutcome::Failed(reason),
        None => is_decoded_outcome(frames_body(frames), r),
    }
}

/// Relies on `String::from_utf8`: it succeeds exactly on valid UTF-8, with
/// the text those bytes encode.
#[verifier::external_body]
fn utf8_text(bytes: Vec<u8>) -> (r: Option<String>)
    ensures
        r is Some <==> valid_utf8(bytes@),
        r matches Some(s) ==> s@ == decode_utf8(bytes@),
{
    String::from_utf8(bytes).ok()
}

/// Collects the body of one response, frame by frame.
pub struct ResponseAssembler {
    body: Vec<u8>,
}

impl View for ResponseAssembler {
    type V = Seq<u8>;

    closed spec fn view(&self) -> Seq<u8> {
        self.body@
    }
}

impl ResponseAssembler {
    /// Nothing received yet.
    pub fn new() -> (r: ResponseAssembler)
        ensures
            r@ == Seq::<u8>::empty(),
    {
        ResponseAssembler { body: Vec::new() }
    }

    /// Appends one frame's bytes after those already received.
    pub fn push_frame(&mut self, frame: &[u8])
        ensures
            final(self)@ == old(self)@ + frame@,
    {
        let n = frame.len();
        let mut i: usize = 0;
        while i < n
            invariant
                n == frame@.len(),
                i <= n,
                self@ == old(self)@ + frame@.take(i as int),
            decreases n - i,
        {
            self.body.push(frame[i]);
            assert(frame@.take(i + 1) =~= frame@.take(i as int).push(frame@[i as int]));
            assert(self@ =~= old(self)@ + frame@.take(i + 1));
            i = i + 1;
        }
        assert(frame@.take(n as int) =~= frame@);
    }

    /// Ends the body and decodes it.
    pub fn finish(&self) -> (r: ResponseOutcome)
        ensures
            is_decoded_outcome(self@, r),
    {
        match utf8_text(self.body.clone()) {
            Some(text) => ResponseOutcome::Completed(text),
            None => ResponseOutcome::Failed("invalid encoding".to_string()),
        }
    }
}

/// Assembles a body from its frames: the first failed read ends assembly
/// with that read's reason and drops what was received; otherwise the bytes
/// of all frames, in order, are decoded.
pub fn assemble(frames: &Vec<Frame>) -> (r: ResponseOutcome)
    ensures
        is_assembled_outcome(frames@, r),
{
    let mut acc = ResponseAssembler::new();
    let n = frames.len();
    let mut i: usize = 0;
    while i < n
        invariant
            n == frames@.len(),
            i <= n,
            first_error(frames@.take(i as int)) is None,
            acc@ == frames_body(frames@.take(i as int)),
        decreases n - i,
    {
        assert(frames@.take(i + 1).drop_last() =~= frames@.take(i as int));
        assert(frames@.take(i + 1).last() == frames@[i as int]);
        match &frames[i] {
            Frame::Data(d) => {
                acc.push_frame(d.as_slice());
            },
            Frame::Error(reason) => {
                proof {
                    lemma_first_error_prefix(frames@, i as int);
                }
                return ResponseOutcome::Failed(reason.clone());
            },
        }
        i = i + 1;
    }
    assert(frames@.take(n as int) =~= frames@);
    acc.finish()
}

/// A failed read after error-free frames is the first error of the whole stream.
proof fn lemma_first_error_prefix(frames: Seq<Frame>, i: int)
    requires
        0 <= i < frames.len(),
        first_error(frames.take(i)) is None,
        frames[i] is Error,
    ensures
        first_error(frames) == Some(i),
    decreases frames.len(),
{
    if i == frames.len() - 1 {
        assert(frames.drop_last() =~= frames.take(i));
    } else {
        let before = frames.drop_last();
        assert(before.take(i) =~= frames.take(i));
        assert(before[i] == frames[i]);
        lemma_first_error_prefix(before, i);
    }
}

/// An empty body is a completed, empty text.
pub proof fn lemma_empty_body_completes(r: ResponseOutcome)
    requires
        is_decoded_outcome(Seq::empty(), r),
    ensures
        r matches ResponseOutcome::Completed(t) && t@.len() == 0,
{
    assert(valid_utf8(Seq::<u8>::empty()));
    assert(decode_utf8(Seq::<u8>::empty()) =~= Seq::<char>::empty());
}

} // verus!
