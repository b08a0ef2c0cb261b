use crate::line::{chat_line, joined, joined_notice, left, left_notice, prompt, prompt_text, said};
use tokio_util::codec::LinesCodecError;
use vstd::prelude::*;

verus! {

/// Where a connection stands in its life.
#[derive(Clone, Copy, Debug, PartialEq, Eq, Structural)]
pub enum Phase {
    /// Accepted and framed; nothing sent yet.
    Connecting,
    /// The prompt is out; the next line is the display name.
    Authenticating,
    /// Named and registered; lines are relayed both ways.
    Active,
    /// The run is over; removal and the leave notice are under way.
    Draining,
    /// Terminal.
    Closed,
}

/// What can happen to a connection.
pub enum Event {
    /// The transport accepted the connection and framing is set up.
    Accepted,
    /// The connection's stream yielded a decoded line.
    Line(String),
    /// The connection's stream yielded a record that does not decode.
    Garbled,
    /// The connection's stream ended.
    Ended,
    /// The connection's own delivery queue yielded a line.
    Queued(String),
    /// A write to the connection's stream failed.
    WriteFailed,
    /// Removal from the registry and the leave notice are done.
    Departed,
}

/// What is to be done for a connection in answer to an event.
pub enum Action {
    /// Write this prompt to the connection's stream.
    Prompt(String),
    /// Register the connection's queue, then broadcast this notice to the
    /// others.
    Join(String),
    /// Broadcast this chat line to the others.
    Relay(String),
    /// Write this line to the connection's stream.
    Deliver(String),
    /// Note a decoding failure in the local log; nothing goes over the wire.
    Report,
    /// Remove the connection from the registry, then broadcast this notice
    /// to those that remain.
    Leave(String),
    /// Release the connection; it takes no further events.
    Close,
    /// Nothing to do.
    Wait,
}

/// An event as a plain value.
pub enum EventView {
    Accepted,
    Line(Seq<char>),
    Garbled,
    Ended,
    Queued(Seq<char>),
    WriteFailed,
    Departed,
}

/// An action as a plain value.
pub enum ActionView {
    Prompt(Seq<char>),
    Join(Seq<char>),
    Relay(Seq<char>),
    Deliver(Seq<char>),
    Report,
    Leave(Seq<char>),
    Close,
    Wait,
}

impl View for Event {
    type V = EventView;

    open spec fn view(&self) -> EventView {
        match self {
            Event::Accepted => EventView::Accepted,
            Event::Line(text) => EventView::Line(text@),
            Event::Garbled => EventView::Garbled,
            Event::Ended => EventView::Ended,
            Event::Queued(text) => EventView::Queued(text@),
            Event::WriteFailed => EventView::WriteFailed,
            Event::Departed => EventView::Departed,
        }
    }
}

impl View for Action {
    type V = ActionView;

    open spec fn view(&self) -> ActionView {
        match self {
            Action::Prompt(text) => ActionView::Prompt(text@),
            Action::Join(text) => ActionView::Join(text@),
            Action::Relay(text) => ActionView::Relay(text@),
            Action::Deliver(text) => ActionView::Deliver(text@),
            Action::Report => ActionView::Report,
            Action::Leave(text) => ActionView::Leave(text@),
            Action::Close => ActionView::Close,
            Action::Wait => ActionView::Wait,
        }
    }
}

/// The error of tokio-util's line codec, `tokio_util::codec::LinesCodecError`:
/// a record that does not decode, or a failure of the transport beneath.
/// Nothing is read from it here.
#[verifier::external_type_specification]
#[verifier::external_body]
pub struct ExLinesCodecError(LinesCodecError);

/// The event that stands for what a line stream yielded.
pub open spec fn stream_event(item: Option<Result<String, LinesCodecError>>) -> EventView {
    match item {
        Some(Ok(line)) => EventView::Line(line@),
        Some(Err(_)) => EventView::Garbled,
        None => EventView::Ended,
    }
}

impl Event {
    /// What the connection's stream yielded, as an event: a line, a record
    /// that could not be decoded, or the end.
    pub fn from_stream(item: Option<Result<String, LinesCodecError>>) -> (event: Event)
        ensures
            event@ == stream_event(item),
    {
        match item {
            Some(Ok(line)) => Event::Line(line),
            Some(Err(_)) => Event::Garbled,
            None => Event::Ended,
        }
    }
}

/// A session as a plain value.
pub struct SessionView {
    /// The connection's identity.
    pub identity: u64,
    /// Where the connection stands.
    pub phase: Phase,
    /// The display name; empty until one was given.
    pub name: Seq<char>,
    /// Whether a write to the connection's stream has failed.
    pub failed: bool,
}

/// The state of one connection.
pub struct Session {
    identity: u64,
    phase: Phase,
    name: String,
    failed: bool,
}

impl View for Session {
    type V = SessionView;

    closed spec fn view(&self) -> SessionView {
        SessionView {
            identity: self.identity,
            phase: self.phase,
            name: self.name@,
            failed: self.failed,
        }
    }
}

/// The session as it is when its connection has just been accepted.
pub open spec fn fresh(identity: u64) -> SessionView {
    SessionView { identity, phase: Phase::Connecting, name: Seq::empty(), failed: false }
}

/// The session in which `event` leaves `s`.
pub open spec fn next_state(s: SessionView, event: EventView) -> SessionView {
    match (s.phase, event) {
        (Phase::Connecting, EventView::Accepted) => SessionView {
            phase: Phase::Authenticating,
            ..s
        },
        (Phase::Connecting, EventView::Ended) => SessionView { phase: Phase::Closed, ..s },
        (Phase::Connecting, EventView::WriteFailed) => SessionView {
            phase: Phase::Closed,
            failed: true,
            ..s
        },
        (Phase::Authenticating, EventView::Line(name)) => SessionView {
            phase: Phase::Active,
            name,
            ..s
        },
        (Phase::Authenticating, EventView::Garbled) => SessionView { phase: Phase::Closed, ..s },
        (Phase::Authenticating, EventView::Ended) => SessionView { phase: Phase::Closed, ..s },
        (Phase::Authenticating, EventView::WriteFailed) => SessionView {
            phase: Phase::Closed,
            failed: true,
            ..s
        },
        (Phase::Active, EventView::Ended) => SessionView { phase: Phase::Draining, ..s },
        (Phase::Active, EventView::WriteFailed) => SessionView {
            phase: Phase::Draining,
            failed: true,
            ..s
        },
        (Phase::Draining, EventView::Departed) => SessionView { phase: Phase::Closed, ..s },
        _ => s,
    }
}

/// What is to be done when `event` reaches `s`.
pub open spec fn reaction(s: SessionView, event: EventView) -> ActionView {
    match (s.phase, event) {
        (Phase::Connecting, EventView::Accepted) => ActionView::Prompt(prompt_text()),
        (Phase::Connecting, EventView::Ended) => ActionView::Close,
        (Phase::Connecting, EventView::WriteFailed) => ActionView::Close,
        (Phase::Authenticating, EventView::Line(name)) => ActionView::Join(joined(name)),
        (Phase::Authenticating, EventView::Garbled) => ActionView::Close,
        (Phase::Authenticating, EventView::Ended) => ActionView::Close,
        (Phase::Authenticating, EventView::WriteFailed) => ActionView::Close,
        (Phase::Active, EventView::Line(body)) => ActionView::Relay(said(s.name, body)),
        (Phase::Active, EventView::Garbled) => ActionView::Report,
        (Phase::Active, EventView::Queued(text)) => ActionView::Deliver(text),
        (Phase::Active, EventView::Ended) => ActionView::Leave(left(s.name)),
        (Phase::Active, EventView::WriteFailed) => ActionView::Leave(left(s.name)),
        (Phase::Draining, EventView::Departed) => ActionView::Close,
        (Phase::Closed, _) => ActionView::Close,
        _ => ActionView::Wait,
    }
}

impl Session {
    /// The session of a connection that has just been accepted.
    pub fn new(identity: u64) -> (session: Session)
        ensures
            session@ == fresh(identity),
    {
        Session { identity, phase: Phase::Connecting, name: String::new(), failed: false }
    }

    /// The connection's identity.
    pub fn identity(&self) -> (identity: u64)
        ensures
            identity == self@.identity,
    {
        self.identity
    }

    /// Where the connection stands.
    pub fn phase(&self) -> (phase: Phase)
        ensures
            phase == self@.phase,
    {
        self.phase
    }

    /// The display name; empty until one was given.
    pub fn name(&self) -> (name: &str)
        ensures
            name@ == self@.name,
    {
        self.name.as_str()
    }

    /// Whether a write to the connection's stream has failed.
    pub fn failed(&self) -> (failed: bool)
        ensures
            failed == self@.failed,
    {
        self.failed
    }

    /// Takes `event` in: moves the session on and says what is to be done.
    pub fn step(&mut self, event: Event) -> (action: Action)
        ensures
            final(self)@ == next_state(old(self)@, event@),
            action@ == reaction(old(self)@, event@),
    {
        match self.phase {
            Phase::Connecting => match event {
                Event::Accepted => {
                    self.phase = Phase::Authenticating;
                    Action::Prompt(prompt())
                },
                Event::Ended => {
                    self.phase = Phase::Closed;
                    Action::Close
                },
                Event::WriteFailed => {
                    self.phase = Phase::Closed;
                    self.failed = true;
                    Action::Close
                },
                _ => Action::Wait,
            },
            Phase::Authenticating => match event {
                Event::Line(name) => {
                    let notice = joined_notice(name.as_str());
                    self.phase = Phase::Active;
                    self.name = name;
                    Action::Join(notice)
                },
                Event::Garbled => {
                    self.phase = Phase::Closed;
                    Action::Close
                },
                Event::Ended => {
                    self.phase = Phase::Closed;
                    Action::Close
                },
                Event::WriteFailed => {
                    self.phase = Phase::Closed;
                    self.failed = true;
                    Action::Close
                },
                _ => Action::Wait,
            },
            Phase::Active => match event {
                Event::Line(body) => Action::Relay(chat_line(self.name.as_str(), body.as_str())),
                Event::Garbled => Action::Report,
                Event::Queued(text) => Action::Deliver(text),
                Event::Ended => {
                    self.phase = Phase::Draining;
                    Action::Leave(left_notice(self.name.as_str()))
                },
                Event::WriteFailed => {
                    self.phase = Phase::Draining;
                    self.failed = true;
                    Action::Leave(left_notice(self.name.as_str()))
                },
                _ => Action::Wait,
            },
            Phase::Draining => match event {
                Event::Departed => {
                    self.phase = Phase::Closed;
                    Action::Close
                },
                _ => Action::Wait,
            },
            Phase::Closed => Action::Close,
        }
    }
}

} // verus!
