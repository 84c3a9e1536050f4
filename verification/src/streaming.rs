//! The client side of a streaming response: the buffer a framed body is read into, the
//! decisions taken between frames, and the checks a streaming response head must pass.
//! Cutting a frame out of the buffer is the framing strategy's business; this module
//! decides what happens when no frame can be cut and when the body yields.
use vstd::prelude::*;

verus! {

/// The largest partial frame that may be buffered, in bytes (8 MiB).
pub const MAX_STREAM_FRAME_BYTES: usize = 8 * 1024 * 1024;

/// The bytes read from a streaming body and not yet cut into frames.
#[derive(Clone, Debug)]
pub struct FrameBuffer {
    /// Bytes received and not yet consumed by the framing.
    pub buf: Vec<u8>,
    /// The body has ended (or failed, or overflowed): nothing more will be read.
    pub eof: bool,
}

/// What the body produced when polled.
#[derive(Clone, Debug, PartialEq)]
pub enum BodyEvent {
    /// A chunk of bytes.
    Chunk(Vec<u8>),
    /// The transport failed, with its message.
    Failed(String),
    /// The body ended.
    Ended,
}

/// What to do when the framing finds no complete frame in the buffer.
#[derive(Clone, Debug, PartialEq)]
pub enum NoFrame {
    /// Read more of the body.
    Pull,
    /// Yield this error item (the body ended inside a frame).
    Fail(String),
    /// The stream is over.
    Done,
}

/// Abstract state of a [`FrameBuffer`].
pub struct FrameState {
    pub buf: Seq<u8>,
    pub eof: bool,
}

/// Abstract value of a [`BodyEvent`].
pub enum BodyEventView {
    Chunk(Seq<u8>),
    Failed(Seq<char>),
    Ended,
}

/// Abstract value of a [`NoFrame`].
pub enum NoFrameView {
    Pull,
    Fail(Seq<char>),
    Done,
}

impl View for FrameBuffer {
    type V = FrameState;

    open spec fn view(&self) -> FrameState {
        FrameState { buf: self.buf@, eof: self.eof }
    }
}

impl View for BodyEvent {
    type V = BodyEventView;

    open spec fn view(&self) -> BodyEventView {
        match self {
            BodyEvent::Chunk(c) => BodyEventView::Chunk(c@),
            BodyEvent::Failed(e) => BodyEventView::Failed(e@),
            BodyEvent::Ended => BodyEventView::Ended,
        }
    }
}

impl View for NoFrame {
    type V = NoFrameView;

    open spec fn view(&self) -> NoFrameView {
        match self {
            NoFrame::Pull => NoFrameView::Pull,
            NoFrame::Fail(m) => NoFrameView::Fail(m@),
            NoFrame::Done => NoFrameView::Done,
        }
    }
}

/// No frame could be cut: while the body is open, read more; once it has stopped, leftover
/// bytes are an incomplete frame (reported, then dropped), and an empty buffer ends the
/// stream.
pub open spec fn no_frame_step(s: FrameState) -> (FrameState, NoFrameView) {
    if !s.eof {
        (s, NoFrameView::Pull)
    } else if s.buf.len() > 0 {
        (
            FrameState { buf: Seq::empty(), eof: true },
            NoFrameView::Fail("incomplete streaming response frame"@),
        )
    } else {
        (s, NoFrameView::Done)
    }
}

/// Taking in what the body produced: a chunk is appended, and if the buffer then exceeds
/// the frame limit it is dropped, reading stops and an error is yielded; a transport
/// failure stops reading and yields its message; the end of the body stops reading.
pub open spec fn event_step(s: FrameState, ev: BodyEventView) -> (FrameState, Option<Seq<char>>) {
    match ev {
        BodyEventView::Chunk(c) => if s.buf.len() + c.len() > MAX_STREAM_FRAME_BYTES {
            (
                FrameState { buf: Seq::empty(), eof: true },
                Some("streaming response frame exceeded size limit"@),
            )
        } else {
            (FrameState { buf: s.buf + c, eof: s.eof }, None)
        },
        BodyEventView::Failed(e) => (FrameState { buf: s.buf, eof: true }, Some(e)),
        BodyEventView::Ended => (FrameState { buf: s.buf, eof: true }, None),
    }
}

/// The buffer never holds more than [`MAX_STREAM_FRAME_BYTES`] bytes.
pub open spec fn frame_state_wf(s: FrameState) -> bool {
    s.buf.len() <= MAX_STREAM_FRAME_BYTES
}

impl FrameBuffer {
    /// An empty buffer, body still open.
    pub fn new() -> (b: FrameBuffer)
        ensures
            b@ == (FrameState { buf: Seq::empty(), eof: false }),
    {
        let b = FrameBuffer { buf: Vec::new(), eof: false };
        assert(b@.buf =~= Seq::<u8>::empty());
        b
    }

    /// Decide what happens when the framing finds no complete frame.
    pub fn after_no_frame(&mut self) -> (r: NoFrame)
        ensures
            (final(self)@, r@) == no_frame_step(old(self)@),
    {
        if !self.eof {
            NoFrame::Pull
        } else if self.buf.len() > 0 {
            self.buf.clear();
            NoFrame::Fail(String::from_str("incomplete streaming response frame"))
        } else {
            NoFrame::Done
        }
    }

    /// Take in what the body produced; returns the error item to yield, if any.
    pub fn on_event(&mut self, ev: BodyEvent) -> (err: Option<String>)
        ensures
            final(self)@ == event_step(old(self)@, ev@).0,
            err matches Some(m) ==> event_step(old(self)@, ev@).1 == Some(m@),
            err is None ==> event_step(old(self)@, ev@).1 is None,
    {
        match ev {
            BodyEvent::Chunk(c) => {
                let mut c = c;
                let ghost before = self.buf@;
                let ghost chunk = c@;
                self.buf.append(&mut c);
                assert(self.buf@.len() == before.len() + chunk.len());
                if self.buf.len() > MAX_STREAM_FRAME_BYTES {
                    self.buf.clear();
                    self.eof = true;
                    Some(String::from_str("streaming response frame exceeded size limit"))
                } else {
                    None
                }
            },
            BodyEvent::Failed(e) => {
                self.eof = true;
                Some(e)
            },
            BodyEvent::Ended => {
                self.eof = true;
                None
            },
        }
    }
}

/// Why a streaming response head is refused.
#[derive(Clone, Copy, Debug, PartialEq, Eq, Structural)]
pub enum HeadRefusal {
    /// The status is not the endpoint's declared one.
    WrongStatus,
    /// There is no `Content-Type` header (reported as `application/octet-stream`).
    NoContentType,
    /// The `Content-Type` header is not a media type.
    InvalidContentType,
    /// The media type matches none the endpoint decodes.
    UnsupportedContentType,
}

/// A streaming response head passes the status check first, then the presence, the syntax
/// and finally the support of its content type.
pub open spec fn head_check_spec(
    status: u16,
    expected: u16,
    has_content_type: bool,
    content_type_parses: bool,
    supported: bool,
) -> Option<HeadRefusal> {
    if status != expected {
        Some(HeadRefusal::WrongStatus)
    } else if !has_content_type {
        Some(HeadRefusal::NoContentType)
    } else if !content_type_parses {
        Some(HeadRefusal::InvalidContentType)
    } else if !supported {
        Some(HeadRefusal::UnsupportedContentType)
    } else {
        None
    }
}

/// Check a streaming response head; `None` accepts it.
pub fn check_stream_head(
    status: u16,
    expected: u16,
    has_content_type: bool,
    content_type_parses: bool,
    supported: bool,
) -> (r: Option<HeadRefusal>)
    ensures
        r == head_check_spec(status, expected, has_content_type, content_type_parses, supported),
{
    if status != expected {
        Some(HeadRefusal::WrongStatus)
    } else if !has_content_type {
        Some(HeadRefusal::NoContentType)
    } else if !content_type_parses {
        Some(HeadRefusal::InvalidContentType)
    } else if !supported {
        Some(HeadRefusal::UnsupportedContentType)
    } else {
        None
    }
}

/// The frame limit holds in every state: no event and no empty check makes the buffer
/// exceed it.
pub proof fn lemma_frame_limit_kept(s: FrameState, ev: BodyEventView)
    requires
        frame_state_wf(s),
    ensures
        frame_state_wf(event_step(s, ev).0),
        frame_state_wf(no_frame_step(s).0),
{
}

/// Once the body has stopped it stays stopped, and a stopped stream never asks for more.
pub proof fn lemma_stopped_stays_stopped(s: FrameState, ev: BodyEventView)
    requires
        s.eof,
    ensures
        event_step(s, ev).0.eof,
        no_frame_step(s).0.eof,
        !(no_frame_step(s).1 is Pull),
{
}

/// An incomplete trailing frame is reported once: the next empty check ends the stream.
pub proof fn lemma_incomplete_reported_once(s: FrameState)
    requires
        s.eof,
    ensures
        no_frame_step(no_frame_step(s).0).1 is Done,
{
}

/// Every event but a chunk that fits stops the reading, and only failures and overflows
/// yield an error.
pub proof fn lemma_errors_stop_reading(s: FrameState, ev: BodyEventView)
    ensures
        event_step(s, ev).1 is Some ==> event_step(s, ev).0.eof,
        !(ev is Chunk) ==> event_step(s, ev).0.eof,
{
}

} // verus!
