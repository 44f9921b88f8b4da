//! One relay session as a state machine.
//!
//! The transport races the next read on both legs and reports what it got as
//! an [`Event`]; [`Session::step`] answers with the [`Action`] to perform.
use vstd::prelude::*;
use crate::frame::{Frame, FrameView, Side};

verus! {

/// Lifecycle of a session.
#[derive(Clone, Copy, Debug, PartialEq, Eq, Structural)]
pub enum Status {
    /// The upstream connection is being opened.
    Connecting,
    /// Both legs are open and frames are relayed.
    Active,
    /// A leg ended: both legs are being released.
    Closing,
    /// Both legs are released.
    Closed,
}

/// What one read on a leg yielded.
#[derive(Debug, PartialEq, Eq)]
pub enum Inbound {
    /// A text or binary frame.
    Data(Frame),
    /// A ping or pong frame.
    Control,
    /// A close frame.
    Close,
    /// A read error, or the end of the stream.
    Ended,
}

pub enum InboundView {
    Data(FrameView),
    Control,
    Close,
    Ended,
}

impl View for Inbound {
    type V = InboundView;

    open spec fn view(&self) -> InboundView {
        match self {
            Inbound::Data(f) => InboundView::Data(f@),
            Inbound::Control => InboundView::Control,
            Inbound::Close => InboundView::Close,
            Inbound::Ended => InboundView::Ended,
        }
    }
}

/// What the transport observed while the session is running.
#[derive(Debug, PartialEq, Eq)]
pub enum Event {
    /// A read on the given leg completed.
    Received(Side, Inbound),
    /// Writing a forwarded frame to the given leg failed.
    WriteFailed(Side),
    /// The configured idle time passed with no read completing.
    IdleTimeout,
}

pub enum EventView {
    Received(Side, InboundView),
    WriteFailed(Side),
    IdleTimeout,
}

impl View for Event {
    type V = EventView;

    open spec fn view(&self) -> EventView {
        match self {
            Event::Received(side, item) => EventView::Received(*side, item@),
            Event::WriteFailed(side) => EventView::WriteFailed(*side),
            Event::IdleTimeout => EventView::IdleTimeout,
        }
    }
}

/// What the transport must do after an event.
#[derive(Debug, PartialEq, Eq)]
pub enum Action {
    /// Write the frame, unchanged, to the given leg; then wait for the next event.
    Forward(Side, Frame),
    /// Nothing to write: wait for the next event.
    Wait,
    /// Release both legs and leave the relay loop.
    CloseBoth,
    /// The session no longer relays: the event is dropped.
    Discard,
}

pub enum ActionView {
    Forward(Side, FrameView),
    Wait,
    CloseBoth,
    Discard,
}

impl View for Action {
    type V = ActionView;

    open spec fn view(&self) -> ActionView {
        match self {
            Action::Forward(side, f) => ActionView::Forward(*side, f@),
            Action::Wait => ActionView::Wait,
            Action::CloseBoth => ActionView::CloseBoth,
            Action::Discard => ActionView::Discard,
        }
    }
}

/// How the attempt to open the upstream connection ended.
#[derive(Clone, Copy, Debug, PartialEq, Eq, Structural)]
pub enum ConnectOutcome {
    Connected,
    /// Network error, handshake rejection or TLS error.
    Failed,
    /// The connect timeout passed first.
    TimedOut,
}

/// What the transport must do once the upstream connect attempt is over.
#[derive(Clone, Copy, Debug, PartialEq, Eq, Structural)]
pub enum StartAction {
    /// Run the relay loop over both legs.
    Relay,
    /// Close the already accepted client connection; no relay loop runs.
    CloseClient,
}

/// Whether reading this event ends the session.
pub open spec fn ends_session(e: EventView) -> bool {
    match e {
        EventView::Received(_, InboundView::Close) => true,
        EventView::Received(_, InboundView::Ended) => true,
        EventView::IdleTimeout => true,
        _ => false,
    }
}

/// The transition taken from status `s` on event `e`, and the action it asks for.
pub open spec fn next(s: Status, e: EventView) -> (Status, ActionView) {
    if s == Status::Active {
        match e {
            EventView::Received(from, InboundView::Data(f)) => (
                Status::Active,
                ActionView::Forward(from.spec_other(), f),
            ),
            EventView::Received(_, InboundView::Control) => (Status::Active, ActionView::Wait),
            EventView::WriteFailed(_) => (Status::Active, ActionView::Wait),
            _ => (Status::Closing, ActionView::CloseBoth),
        }
    } else {
        (s, ActionView::Discard)
    }
}

/// The status reached once the connect attempt ended with `outcome`.
pub open spec fn connected_status(outcome: ConnectOutcome) -> Status {
    if outcome == ConnectOutcome::Connected {
        Status::Active
    } else {
        Status::Closed
    }
}

/// A relay session: one client connection paired with one upstream connection.
pub struct Session {
    status: Status,
}

impl View for Session {
    type V = Status;

    closed spec fn view(&self) -> Status {
        self.status
    }
}

impl Session {
    /// A session whose upstream connection is being opened.
    pub fn new() -> (r: Session)
        ensures
            r@ == Status::Connecting,
    {
        Session { status: Status::Connecting }
    }

    pub fn status(&self) -> (r: Status)
        ensures
            r == self@,
    {
        self.status
    }

    /// Records how the upstream connect attempt ended. Only a connected upstream
    /// starts the relay; otherwise the client connection is closed at once.
    pub fn on_connect(&mut self, outcome: ConnectOutcome) -> (r: StartAction)
        requires
            old(self)@ == Status::Connecting,
        ensures
            final(self)@ == connected_status(outcome),
            r == (if outcome == ConnectOutcome::Connected {
                StartAction::Relay
            } else {
                StartAction::CloseClient
            }),
    {
        match outcome {
            ConnectOutcome::Connected => {
                self.status = Status::Active;
                StartAction::Relay
            },
            _ => {
                self.status = Status::Closed;
                StartAction::CloseClient
            },
        }
    }

    /// Decides what to do with one event. Data frames go unchanged to the other
    /// leg; control frames and failed writes are absorbed; a close frame, a read
    /// error, the end of a stream or an idle timeout ends the session.
    pub fn step(&mut self, event: Event) -> (r: Action)
        ensures
            (final(self)@, r@) == next(old(self)@, event@),
    {
        match self.status {
            Status::Active => {},
            _ => {
                return Action::Discard;
            },
        }
        match event {
            Event::Received(from, Inbound::Data(f)) => Action::Forward(from.other(), f),
            Event::Received(_, Inbound::Control) => Action::Wait,
            Event::WriteFailed(_) => Action::Wait,
            _ => {
                self.status = Status::Closing;
                Action::CloseBoth
            },
        }
    }

    /// Records that the transport released both legs after [`Action::CloseBoth`].
    pub fn released(&mut self)
        ensures
            final(self)@ == (if old(self)@ == Status::Closing {
                Status::Closed
            } else {
                old(self)@
            }),
    {
        match self.status {
            Status::Closing => {
                self.status = Status::Closed;
            },
            _ => {},
        }
    }
}

} // verus!
