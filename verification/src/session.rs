//! The server-side connection session: one accepted socket handled as a
//! pair of loops — inbound (socket to channel) and outbound (channel
//! subscription to socket) — coordinated by a private cancellation
//! signal. The session walks `Active -> Closing -> Closed`.
//!
//! The loops themselves suspend on sockets and so live outside this
//! crate; every decision they take is a function here, with its contract.

use vstd::prelude::*;
use crate::channel::Channel;
use crate::signal::Signal;
use crate::text::{strip_line_end, strip_newlines, frame_line};

verus! {

/// Where a session stands in its life cycle.
#[derive(Clone, Copy, PartialEq, Eq, Structural, Debug)]
pub enum SessionState {
    /// Both loops run; lines flow in both directions.
    Active,
    /// One direction has ended and cancellation is requested; the other
    /// direction is being stopped.
    Closing,
    /// Both loops have exited; the socket may be released.
    Closed,
}

/// What the outbound loop observed at its suspension point.
#[derive(Debug)]
pub enum OutboundEvent {
    /// The cancellation wait completed first.
    CancelObserved,
    /// The subscription handed over the next message.
    Message(String),
    /// The subscription reported lag; nothing to write this round.
    Lagged,
    /// Writing the previous message to the socket failed.
    WriteFailed,
}

/// What the outbound loop must do next.
#[derive(Debug)]
pub enum OutboundAction {
    /// Write exactly these characters to the socket, then loop.
    Write(String),
    /// Nothing to write; loop again.
    Continue,
    /// Exit the outbound loop.
    Stop,
}

/// One connection's coordination state: its life-cycle position and the
/// private cancellation signal shared by its two loops.
pub struct Session {
    state: SessionState,
    cancel: Signal<bool>,
}

/// The inbound direction's reaction to the peer closing the socket
/// (zero-length read) or to a read error: the session moves to Closing
/// and requests cancellation, and nothing else changes.
pub open spec fn inbound_end_rel(pre: Session, post: Session) -> bool {
    &&& post.state_spec() == SessionState::Closing
    &&& post.cancel_requested()
}

/// The outbound direction's reaction to `ev`: observing cancellation
/// stops the loop without writing; a received message is written followed
/// by a newline; lag is not an error; a failed write requests
/// cancellation and stops the loop.
pub open spec fn outbound_rel(pre: Session, post: Session, ev: OutboundEvent, a: OutboundAction) -> bool {
    match ev {
        OutboundEvent::CancelObserved => a == OutboundAction::Stop && post == pre,
        OutboundEvent::Message(m) => post == pre && (a matches OutboundAction::Write(w) && w@
            == m@ + "\n"@),
        OutboundEvent::Lagged => a == OutboundAction::Continue && post == pre,
        OutboundEvent::WriteFailed => {
            &&& a == OutboundAction::Stop
            &&& post.state_spec() == pre.state_spec()
            &&& post.cancel_requested()
        },
    }
}

/// Teardown, run once both loops have exited: the session is Closed.
pub open spec fn teardown_rel(pre: Session, post: Session) -> bool {
    &&& post.state_spec() == SessionState::Closed
    &&& post.cancel_requested()
}

impl Session {
    /// The session's life-cycle position.
    pub closed spec fn state_spec(&self) -> SessionState {
        self.state
    }

    /// Whether either loop has asked the other to stop.
    pub closed spec fn cancel_requested(&self) -> bool {
        self.cancel.current_spec()
    }

    /// A session for a freshly accepted connection.
    pub fn new() -> (s: Session)
        ensures
            s.state_spec() == SessionState::Active,
            !s.cancel_requested(),
    {
        Session { state: SessionState::Active, cancel: Signal::new(false) }
    }

    /// The session's life-cycle position, for the loops outside.
    pub fn state(&self) -> (st: SessionState)
        ensures
            st == self.state_spec(),
    {
        self.state
    }

    /// Whether cancellation has been requested, for the loops outside.
    pub fn is_cancelled(&self) -> (b: bool)
        ensures
            b == self.cancel_requested(),
    {
        *self.cancel.current()
    }

    /// The inbound loop read one full line: strip its newline and
    /// publish it to the shared channel; the session stays as it is.
    pub fn on_inbound_line(&self, chan: &mut Channel, line: &str)
        requires
            self.state_spec() == SessionState::Active,
            old(chan).wf(),
            old(chan).total() < usize::MAX,
        ensures
            final(chan).wf(),
            final(chan).cap() == old(chan).cap(),
            final(chan).hist() == old(chan).hist().push(strip_newlines(line@)),
    {
        let m = strip_line_end(line);
        chan.publish(m);
    }

    /// The inbound loop saw the peer close the socket or a read error:
    /// transition to Closing and signal the outbound loop to stop.
    pub fn on_inbound_end(&mut self)
        requires
            old(self).state_spec() == SessionState::Active,
        ensures
            inbound_end_rel(*old(self), *final(self)),
    {
        self.state = SessionState::Closing;
        self.cancel.signal(true);
    }

    /// Decide the outbound loop's next step from what it observed.
    pub fn on_outbound_event(&mut self, ev: OutboundEvent) -> (a: OutboundAction)
        ensures
            outbound_rel(*old(self), *final(self), ev, a),
    {
        match ev {
            OutboundEvent::CancelObserved => OutboundAction::Stop,
            OutboundEvent::Message(m) => OutboundAction::Write(frame_line(m.as_str())),
            OutboundEvent::Lagged => OutboundAction::Continue,
            OutboundEvent::WriteFailed => {
                self.cancel.signal(true);
                OutboundAction::Stop
            },
        }
    }

    /// After the inbound loop has ended, signal cancellation once more;
    /// signalling is idempotent, so this is safe whether or not the
    /// inbound loop already did.
    pub fn begin_teardown(&mut self)
        ensures
            final(self).state_spec() == old(self).state_spec(),
            final(self).cancel_requested(),
    {
        self.cancel.signal(true);
    }

    /// Both loops have exited: the session is Closed and its socket may
    /// be released; only now is the disconnect reported.
    pub fn finish_teardown(&mut self)
        requires
            old(self).state_spec() == SessionState::Closing,
            old(self).cancel_requested(),
        ensures
            teardown_rel(*old(self), *final(self)),
    {
        self.state = SessionState::Closed;
    }
}

/// Law: a session whose peer closes the socket goes inbound -> cancel ->
/// outbound-stop -> teardown without writing further data. After the
/// inbound direction reports the close the session is Closing with
/// cancellation requested; the outbound loop, once it observes that
/// cancellation, stops without producing a write; teardown then reaches
/// Closed.
pub proof fn lemma_peer_close_quiesces(
    s0: Session,
    s1: Session,
    s2: Session,
    s3: Session,
    a: OutboundAction,
)
    requires
        s0.state_spec() == SessionState::Active,
        inbound_end_rel(s0, s1),
        outbound_rel(s1, s2, OutboundEvent::CancelObserved, a),
        teardown_rel(s2, s3),
    ensures
        s1.state_spec() == SessionState::Closing && s1.cancel_requested(),
        a == OutboundAction::Stop,
        !(a matches OutboundAction::Write(_)),
        s2.state_spec() == SessionState::Closing && s2.cancel_requested(),
        s3.state_spec() == SessionState::Closed,
{
}

} // verus!
