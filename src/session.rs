//! One echo session as a state machine.
//!
//! The session never waits, sends or reads by itself. Each call of
//! [`Session::step`] takes what just happened on the connection (an [`Event`])
//! and answers with what to do next (an [`Action`]). The driver carries the
//! action out and reports the outcome as the next event.
use vstd::prelude::*;
use vstd::utf8::encode_utf8;

verus! {

/// How long a session may live, in milliseconds, counted from its start.
/// Activity does not extend it.
pub const SESSION_LIFETIME_MS: u64 = 10_000;

/// The largest inbound message, in bytes, that reaches the echo logic.
pub const MAX_MESSAGE_SIZE: usize = 1024;

/// A message on the wire.
#[derive(Clone, Debug, PartialEq, Eq)]
pub enum Frame {
    Text(String),
    Binary(Vec<u8>),
    Ping(Vec<u8>),
    Pong(Vec<u8>),
    Close,
}

/// What a [`Frame`] holds, as mathematical values.
pub enum FrameView {
    Text(Seq<char>),
    Binary(Seq<u8>),
    Ping(Seq<u8>),
    Pong(Seq<u8>),
    Close,
}

impl FrameView {
    /// The payload size in bytes; text counts its UTF-8 encoding, in a
    /// `usize` as `str::len` reports it.
    pub open spec fn size(self) -> nat {
        match self {
            FrameView::Text(t) => (encode_utf8(t).len() as usize) as nat,
            FrameView::Binary(b) => b.len(),
            FrameView::Ping(b) => b.len(),
            FrameView::Pong(b) => b.len(),
            FrameView::Close => 0,
        }
    }

    /// A frame that the session answers with an echo.
    pub open spec fn is_data(self) -> bool {
        self is Text || self is Binary
    }
}

impl View for Frame {
    type V = FrameView;

    open spec fn view(&self) -> FrameView {
        match self {
            Frame::Text(t) => FrameView::Text(t@),
            Frame::Binary(b) => FrameView::Binary(b@),
            Frame::Ping(b) => FrameView::Ping(b@),
            Frame::Pong(b) => FrameView::Pong(b@),
            Frame::Close => FrameView::Close,
        }
    }
}

impl Frame {
    /// The payload size in bytes.
    pub fn size(&self) -> (r: usize)
        ensures
            r == self@.size(),
    {
        match self {
            Frame::Text(t) => t.as_str().len(),
            Frame::Binary(b) => b.len(),
            Frame::Ping(b) => b.len(),
            Frame::Pong(b) => b.len(),
            Frame::Close => 0,
        }
    }
}

/// The text sent first on every session.
pub open spec fn greeting_text() -> Seq<char> {
    "Hello from Rust!"@
}

/// The text sent when the session's lifetime runs out.
pub open spec fn timeout_text() -> Seq<char> {
    "Timeout expired"@
}

/// The text sent before the closing handshake.
pub open spec fn bye_text() -> Seq<char> {
    "Bye Bye"@
}

fn text_frame(s: &str) -> (r: Frame)
    ensures
        r@ == FrameView::Text(s@),
{
    Frame::Text(String::from_str(s))
}

/// Where a session stands. The variant names what the session waits for.
#[derive(Clone, Copy, Debug, PartialEq, Eq, Structural)]
pub enum Phase {
    /// The greeting is being sent.
    Greeting,
    /// Waiting for the next inbound frame or for the deadline.
    Active,
    /// An echo is being sent.
    Echoing,
    /// The timeout notice is being sent.
    TimedOut,
    /// The closing notice is being sent.
    Closing,
    /// The closing handshake is running.
    Closed,
    /// Nothing is left to do.
    Ended,
}

/// Why a session left its echo loop.
#[derive(Clone, Copy, Debug, PartialEq, Eq, Structural)]
pub enum Ending {
    /// The deadline passed.
    TimedOut,
    /// The peer sent a close frame or the stream ended.
    PeerClosed,
    /// A send failed, or the peer broke the protocol.
    Errored,
}

/// What the driver reports to the session.
#[derive(Clone, Debug, PartialEq, Eq)]
pub enum Event {
    /// The send that the session asked for finished, successfully or not.
    Sent { ok: bool },
    /// A frame arrived at the given time (milliseconds on the session's clock).
    Received { frame: Frame, at: u64 },
    /// The wait ran out before a frame arrived.
    Elapsed,
    /// The inbound stream ended or failed.
    Ended,
    /// The closing handshake finished.
    CloseDone,
}

/// What an [`Event`] holds, as mathematical values.
pub enum EventView {
    Sent { ok: bool },
    Received { frame: FrameView, at: u64 },
    Elapsed,
    Ended,
    CloseDone,
}

impl View for Event {
    type V = EventView;

    open spec fn view(&self) -> EventView {
        match self {
            Event::Sent { ok } => EventView::Sent { ok: *ok },
            Event::Received { frame, at } => EventView::Received { frame: frame@, at: *at },
            Event::Elapsed => EventView::Elapsed,
            Event::Ended => EventView::Ended,
            Event::CloseDone => EventView::CloseDone,
        }
    }
}

/// What the session asks the driver to do next.
#[derive(Clone, Debug, PartialEq, Eq)]
pub enum Action {
    /// Send this frame, then report [`Event::Sent`].
    Send(Frame),
    /// Wait for the next inbound frame, at most [`Session::remaining`]
    /// milliseconds, then report [`Event::Received`], [`Event::Elapsed`] or
    /// [`Event::Ended`].
    Receive,
    /// Run the closing handshake, then report [`Event::CloseDone`].
    Close,
    /// Drop the connection; the session is over.
    Finish,
}

/// What an [`Action`] holds, as mathematical values.
pub enum ActionView {
    Send(FrameView),
    Receive,
    Close,
    Finish,
}

impl View for Action {
    type V = ActionView;

    open spec fn view(&self) -> ActionView {
        match self {
            Action::Send(f) => ActionView::Send(f@),
            Action::Receive => ActionView::Receive,
            Action::Close => ActionView::Close,
            Action::Finish => ActionView::Finish,
        }
    }
}

/// The state of one echo session. It is a plain value: the model that the
/// contracts speak of is the struct itself.
#[derive(Clone, Copy, Debug)]
pub struct Session {
    /// The absolute end of the session's life, fixed when it starts.
    pub deadline: u64,
    pub phase: Phase,
    /// Why the echo loop was left, once it was.
    pub ending: Option<Ending>,
}

/// The session as it stands right after it started at `now`.
pub open spec fn initial(now: u64) -> Session {
    Session { deadline: (now + SESSION_LIFETIME_MS) as u64, phase: Phase::Greeting, ending: None }
}

/// The session after it left the echo loop for `why`, sending the closing notice.
pub open spec fn closing(s: Session, why: Ending) -> (Session, ActionView) {
    (
        Session { phase: Phase::Closing, ending: Some(why), ..s },
        ActionView::Send(FrameView::Text(bye_text())),
    )
}

/// The session after the deadline passed, sending the timeout notice.
pub open spec fn timing_out(s: Session) -> (Session, ActionView) {
    (
        Session { phase: Phase::TimedOut, ending: Some(Ending::TimedOut), ..s },
        ActionView::Send(FrameView::Text(timeout_text())),
    )
}

/// The session with nothing left to do.
pub open spec fn ending(s: Session, why: Option<Ending>) -> (Session, ActionView) {
    (Session { phase: Phase::Ended, ending: why, ..s }, ActionView::Finish)
}

/// Whether the session, as it stands, waits for event `e`.
pub open spec fn awaits(s: Session, e: EventView) -> bool {
    match s.phase {
        Phase::Greeting | Phase::Echoing | Phase::TimedOut | Phase::Closing => e is Sent,
        Phase::Active => e is Received || e is Elapsed || e is Ended,
        Phase::Closed => e is CloseDone,
        Phase::Ended => false,
    }
}

/// The transition function: the next state and action after event `e`.
/// An event that the session does not await leaves it as it is.
pub open spec fn next(s: Session, e: EventView) -> (Session, ActionView) {
    if !awaits(s, e) {
        (s, ActionView::Finish)
    } else {
        match s.phase {
            Phase::Greeting => if e->ok {
                (Session { phase: Phase::Active, ..s }, ActionView::Receive)
            } else {
                ending(s, Some(Ending::Errored))
            },
            Phase::Active => match e {
                EventView::Received { frame, at } => if frame.size() > MAX_MESSAGE_SIZE {
                    closing(s, Ending::Errored)
                } else if at >= s.deadline {
                    timing_out(s)
                } else if frame.is_data() {
                    (Session { phase: Phase::Echoing, ..s }, ActionView::Send(frame))
                } else if frame is Close {
                    closing(s, Ending::PeerClosed)
                } else {
                    (s, ActionView::Receive)
                },
                EventView::Elapsed => timing_out(s),
                _ => closing(s, Ending::PeerClosed),
            },
            Phase::Echoing => if e->ok {
                (Session { phase: Phase::Active, ..s }, ActionView::Receive)
            } else {
                closing(s, Ending::Errored)
            },
            Phase::TimedOut => closing(s, Ending::TimedOut),
            Phase::Closing => if e->ok {
                (Session { phase: Phase::Closed, ..s }, ActionView::Close)
            } else {
                ending(s, s.ending)
            },
            _ => ending(s, s.ending),
        }
    }
}

impl Session {
    /// Starts a session at time `now` (milliseconds on the session's clock):
    /// its deadline is fixed, and the first action sends the greeting.
    pub fn start(now: u64) -> (r: (Session, Action))
        requires
            now + SESSION_LIFETIME_MS <= u64::MAX,
        ensures
            r.0 == initial(now),
            r.1@ == ActionView::Send(FrameView::Text(greeting_text())),
    {
        let s = Session { deadline: now + SESSION_LIFETIME_MS, phase: Phase::Greeting, ending: None };
        (s, text_frame_action("Hello from Rust!"))
    }

    /// Milliseconds from `now` until the deadline; zero once it has passed.
    pub fn remaining(&self, now: u64) -> (r: u64)
        ensures
            r == if now < self.deadline { self.deadline - now } else { 0 },
    {
        if now < self.deadline {
            self.deadline - now
        } else {
            0
        }
    }

    /// Whether the session, as it stands, waits for `event`.
    pub fn awaits_event(&self, event: &Event) -> (r: bool)
        ensures
            r == awaits(*self, event@),
    {
        match self.phase {
            Phase::Greeting | Phase::Echoing | Phase::TimedOut | Phase::Closing => matches!(event, Event::Sent { .. }),
            Phase::Active => matches!(event, Event::Received { .. } | Event::Elapsed | Event::Ended),
            Phase::Closed => matches!(event, Event::CloseDone),
            Phase::Ended => false,
        }
    }

    /// Whether the session is over.
    pub fn is_over(&self) -> (r: bool)
        ensures
            r == (self.phase == Phase::Ended),
    {
        self.phase == Phase::Ended
    }

    /// Takes in event `event` and answers with the next action.
    pub fn step(&mut self, event: Event) -> (r: Action)
        requires
            awaits(*old(self), event@),
        ensures
            (*final(self), r@) == next(*old(self), event@),
    {
        let s = *self;
        match self.phase {
            Phase::Greeting => {
                if let Event::Sent { ok: true } = event {
                    self.phase = Phase::Active;
                    Action::Receive
                } else {
                    self.phase = Phase::Ended;
                    self.ending = Some(Ending::Errored);
                    Action::Finish
                }
            },
            Phase::Active => match event {
                Event::Received { frame, at } => {
                    if frame.size() > MAX_MESSAGE_SIZE {
                        self.leave(Ending::Errored)
                    } else if at >= s.deadline {
                        self.time_out()
                    } else {
                        match frame {
                            Frame::Text(_) | Frame::Binary(_) => {
                                self.phase = Phase::Echoing;
                                Action::Send(frame)
                            },
                            Frame::Close => self.leave(Ending::PeerClosed),
                            _ => Action::Receive,
                        }
                    }
                },
                Event::Elapsed => self.time_out(),
                _ => self.leave(Ending::PeerClosed),
            },
            Phase::Echoing => {
                if let Event::Sent { ok: true } = event {
                    self.phase = Phase::Active;
                    Action::Receive
                } else {
                    self.leave(Ending::Errored)
                }
            },
            Phase::TimedOut => self.leave(Ending::TimedOut),
            Phase::Closing => {
                if let Event::Sent { ok: true } = event {
                    self.phase = Phase::Closed;
                    Action::Close
                } else {
                    self.phase = Phase::Ended;
                    Action::Finish
                }
            },
            _ => {
                self.phase = Phase::Ended;
                Action::Finish
            },
        }
    }

    fn leave(&mut self, why: Ending) -> (r: Action)
        ensures
            (*final(self), r@) == closing(*old(self), why),
    {
        self.phase = Phase::Closing;
        self.ending = Some(why);
        text_frame_action("Bye Bye")
    }

    fn time_out(&mut self) -> (r: Action)
        ensures
            (*final(self), r@) == timing_out(*old(self)),
    {
        self.phase = Phase::TimedOut;
        self.ending = Some(Ending::TimedOut);
        text_frame_action("Timeout expired")
    }
}

fn text_frame_action(s: &str) -> (r: Action)
    ensures
        r@ == ActionView::Send(FrameView::Text(s@)),
{
    Action::Send(text_frame(s))
}

} // verus!
