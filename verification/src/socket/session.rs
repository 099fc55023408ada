//! The backend's end of one connection, as a state machine.
//!
//! A session starts `Connecting`, becomes `Active` when the registry has
//! given it an id, and ends `Terminated`. While active it sends a heartbeat
//! on every tick and expects one from the peer at least every ten seconds.
//! Whatever ends a session, the registry is told exactly once.
//!
//! The socket, the timer and the registry's mailbox are the driver's. The
//! driver hands each event to the session and carries out the action that
//! comes back. Time is a reading of a monotonic clock in nanoseconds.

use crate::socket::codec::CodecError;
use crate::socket::message::{BotResponse, Disconnect, MessageView};
use crate::socket::server::after_disconnect;
use vstd::prelude::*;

verus! {

/// The time between two heartbeat ticks: one second.
pub const HEARTBEAT_INTERVAL: u64 = 1_000_000_000;

/// The longest silence that a session bears from its peer: ten seconds.
pub const CLIENT_TIMEOUT: u64 = 10_000_000_000;

/// The time from `since` to `now`; zero if `now` is the earlier one.
pub open spec fn elapsed(since: u64, now: u64) -> int {
    if now >= since {
        now - since
    } else {
        0
    }
}

/// Where a session is in its life.
#[derive(Debug, Clone, Copy, PartialEq, Eq, Structural)]
pub enum SessionState {
    /// Waiting for the registry's answer. No other event is processed yet.
    Connecting,
    /// Registered and exchanging heartbeats.
    Active,
    /// Over. The registry has been told.
    Terminated,
}

/// Why a session ended.
#[derive(Debug, Clone, Copy, PartialEq, Eq, Structural)]
pub enum StopReason {
    /// The peer sent no heartbeat for more than ten seconds.
    Timeout,
    /// The peer sent a message other than a heartbeat.
    ProtocolViolation,
    /// A frame could not be decoded, or the stream failed.
    DecodeFailure,
    /// The peer closed the connection.
    Closed,
    /// The registry did not answer the request for an id.
    RegistryUnreachable,
    /// The session was stopped from outside.
    Stopped,
}

/// What the driver is to do after an event.
#[derive(Debug, Clone, Copy, PartialEq, Eq, Structural)]
pub enum SessionAction {
    /// Nothing to do.
    Nothing,
    /// Keep the event and hand it in again once the registry has answered.
    Hold,
    /// Send a heartbeat to the peer.
    SendPing,
    /// Send this `Disconnect` to the registry and stop for good.
    Stop(Disconnect, StopReason),
}

/// What can happen to a session.
pub enum SessionEvent {
    /// The registry answered the request for an id, or could not be reached.
    Registered(Option<usize>),
    /// The heartbeat timer ticked at this time.
    Tick(u64),
    /// The stream handed over a decoded message or an error, at this time.
    Inbound(Result<BotResponse, CodecError>, u64),
    /// The stream ended.
    Closed,
    /// The session is being stopped from outside.
    Stopping,
}

/// A session as a mathematical value.
pub struct SessionView {
    pub id: usize,
    pub hb: u64,
    pub state: SessionState,
}

/// The session in its last state, and the one message that ends it.
pub open spec fn terminated(s: SessionView, reason: StopReason) -> (SessionView, SessionAction) {
    (
        SessionView { state: SessionState::Terminated, ..s },
        SessionAction::Stop(Disconnect { id: s.id }, reason),
    )
}

/// The registry's answer: an id makes a connecting session active under that
/// id; no answer ends it. A session that is not connecting ignores it.
pub open spec fn on_registered(s: SessionView, reply: Option<usize>) -> (
    SessionView,
    SessionAction,
) {
    match s.state {
        SessionState::Connecting => match reply {
            Some(id) => (
                SessionView { id: id, state: SessionState::Active, ..s },
                SessionAction::Nothing,
            ),
            None => terminated(s, StopReason::RegistryUnreachable),
        },
        _ => (s, SessionAction::Nothing),
    }
}

/// A heartbeat tick: an active session whose peer has been silent for more
/// than ten seconds ends; otherwise it sends a heartbeat.
pub open spec fn on_tick(s: SessionView, now: u64) -> (SessionView, SessionAction) {
    match s.state {
        SessionState::Connecting => (s, SessionAction::Hold),
        SessionState::Active => if elapsed(s.hb, now) > CLIENT_TIMEOUT {
            terminated(s, StopReason::Timeout)
        } else {
            (s, SessionAction::SendPing)
        },
        SessionState::Terminated => (s, SessionAction::Nothing),
    }
}

/// An inbound item: a heartbeat moves the time the peer was last heard to
/// `now`; any other message, and any error, ends an active session.
pub open spec fn on_inbound(s: SessionView, msg: Result<BotResponse, CodecError>, now: u64) -> (
    SessionView,
    SessionAction,
) {
    match s.state {
        SessionState::Connecting => (s, SessionAction::Hold),
        SessionState::Active => match msg {
            Ok(m) => if m@ == MessageView::Ping {
                (SessionView { hb: now, ..s }, SessionAction::Nothing)
            } else {
                terminated(s, StopReason::ProtocolViolation)
            },
            Err(_) => terminated(s, StopReason::DecodeFailure),
        },
        SessionState::Terminated => (s, SessionAction::Nothing),
    }
}

/// The end of the stream ends an active session.
pub open spec fn on_closed(s: SessionView) -> (SessionView, SessionAction) {
    match s.state {
        SessionState::Connecting => (s, SessionAction::Hold),
        SessionState::Active => terminated(s, StopReason::Closed),
        SessionState::Terminated => (s, SessionAction::Nothing),
    }
}

/// A stop from outside ends a session that has not ended yet.
pub open spec fn on_stopping(s: SessionView) -> (SessionView, SessionAction) {
    match s.state {
        SessionState::Terminated => (s, SessionAction::Nothing),
        _ => terminated(s, StopReason::Stopped),
    }
}

/// One step of the machine: the next state and the action for an event.
pub open spec fn step(s: SessionView, event: SessionEvent) -> (SessionView, SessionAction) {
    match event {
        SessionEvent::Registered(reply) => on_registered(s, reply),
        SessionEvent::Tick(now) => on_tick(s, now),
        SessionEvent::Inbound(msg, now) => on_inbound(s, msg, now),
        SessionEvent::Closed => on_closed(s),
        SessionEvent::Stopping => on_stopping(s),
    }
}

/// The state after a run of events.
pub open spec fn state_after(s: SessionView, events: Seq<SessionEvent>) -> SessionView
    decreases events.len(),
{
    if events.len() == 0 {
        s
    } else {
        step(state_after(s, events.drop_last()), events.last()).0
    }
}

/// How often a run of events tells the driver to send a `Disconnect`.
pub open spec fn disconnects_sent(s: SessionView, events: Seq<SessionEvent>) -> nat
    decreases events.len(),
{
    if events.len() == 0 {
        0
    } else {
        let before = events.drop_last();
        disconnects_sent(s, before) + if step(state_after(s, before), events.last()).1 is Stop {
            1nat
        } else {
            0nat
        }
    }
}

/// One session of the backend.
#[derive(Debug, Clone, Copy, PartialEq, Eq)]
pub struct Session {
    id: usize,
    hb: u64,
    state: SessionState,
}

impl View for Session {
    type V = SessionView;

    closed spec fn view(&self) -> SessionView {
        SessionView { id: self.id, hb: self.hb, state: self.state }
    }
}

impl Session {
    /// A session that has just been accepted, at time `now`: connecting,
    /// without an id yet, its peer counted as heard from at `now`.
    pub fn new(now: u64) -> (s: Session)
        ensures
            s@ == (SessionView { id: 0, hb: now, state: SessionState::Connecting }),
    {
        Session { id: 0, hb: now, state: SessionState::Connecting }
    }

    /// The id that the registry gave; 0 before it gave one.
    pub fn id(&self) -> (id: usize)
        ensures
            id == self@.id,
    {
        self.id
    }

    /// When the peer's last heartbeat was seen.
    pub fn last_heartbeat(&self) -> (hb: u64)
        ensures
            hb == self@.hb,
    {
        self.hb
    }

    /// Where the session is in its life.
    pub fn state(&self) -> (state: SessionState)
        ensures
            state == self@.state,
    {
        self.state
    }

    fn terminate(&mut self, reason: StopReason) -> (action: SessionAction)
        ensures
            (final(self)@, action) == terminated(old(self)@, reason),
    {
        self.state = SessionState::Terminated;
        SessionAction::Stop(Disconnect { id: self.id }, reason)
    }

    /// Takes the registry's answer to the request for an id.
    pub fn registered(&mut self, reply: Option<usize>) -> (action: SessionAction)
        ensures
            (final(self)@, action) == on_registered(old(self)@, reply),
    {
        match self.state {
            SessionState::Connecting => match reply {
                Some(id) => {
                    self.id = id;
                    self.state = SessionState::Active;
                    SessionAction::Nothing
                },
                None => self.terminate(StopReason::RegistryUnreachable),
            },
            _ => SessionAction::Nothing,
        }
    }

    /// Takes a heartbeat tick at time `now`.
    pub fn hb(&mut self, now: u64) -> (action: SessionAction)
        ensures
            (final(self)@, action) == on_tick(old(self)@, now),
    {
        match self.state {
            SessionState::Connecting => SessionAction::Hold,
            SessionState::Active => {
                if now >= self.hb && now - self.hb > CLIENT_TIMEOUT {
                    self.terminate(StopReason::Timeout)
                } else {
                    SessionAction::SendPing
                }
            },
            SessionState::Terminated => SessionAction::Nothing,
        }
    }

    /// Takes what the inbound stream handed over at time `now`.
    pub fn handle(&mut self, msg: Result<BotResponse, CodecError>, now: u64) -> (action:
        SessionAction)
        ensures
            (final(self)@, action) == on_inbound(old(self)@, msg, now),
    {
        match self.state {
            SessionState::Connecting => SessionAction::Hold,
            SessionState::Active => match msg {
                Ok(BotResponse::Ping) => {
                    self.hb = now;
                    SessionAction::Nothing
                },
                Ok(BotResponse::User(_)) => self.terminate(StopReason::ProtocolViolation),
                Err(_) => self.terminate(StopReason::DecodeFailure),
            },
            SessionState::Terminated => SessionAction::Nothing,
        }
    }

    /// Takes the end of the inbound stream.
    pub fn finished(&mut self) -> (action: SessionAction)
        ensures
            (final(self)@, action) == on_closed(old(self)@),
    {
        match self.state {
            SessionState::Connecting => SessionAction::Hold,
            SessionState::Active => self.terminate(StopReason::Closed),
            SessionState::Terminated => SessionAction::Nothing,
        }
    }

    /// Takes a stop from outside. A session that has ended already has told
    /// the registry and does not tell it again.
    pub fn stopping(&mut self) -> (action: SessionAction)
        ensures
            (final(self)@, action) == on_stopping(old(self)@),
    {
        match self.state {
            SessionState::Terminated => SessionAction::Nothing,
            _ => self.terminate(StopReason::Stopped),
        }
    }

    /// Takes any event: one step of the machine.
    pub fn step(&mut self, event: SessionEvent) -> (action: SessionAction)
        ensures
            (final(self)@, action) == step(old(self)@, event),
    {
        match event {
            SessionEvent::Registered(reply) => self.registered(reply),
            SessionEvent::Tick(now) => self.hb(now),
            SessionEvent::Inbound(msg, now) => self.handle(msg, now),
            SessionEvent::Closed => self.finished(),
            SessionEvent::Stopping => self.stopping(),
        }
    }
}

/// Timeout: an active session that is ticked more than ten seconds after
/// its peer's last heartbeat ends, and tells the driver to send one
/// `Disconnect` with its id, after which the registry has no entry under
/// that id. Ticked at ten seconds or less it sends a heartbeat and lives on.
pub proof fn lemma_timeout<H>(s: SessionView, now: u64, entries: Map<usize, H>)
    requires
        s.state == SessionState::Active,
    ensures
        elapsed(s.hb, now) > CLIENT_TIMEOUT ==> on_tick(s, now) == (
            SessionView { state: SessionState::Terminated, ..s },
            SessionAction::Stop(Disconnect { id: s.id }, StopReason::Timeout),
        ) && !after_disconnect(entries, s.id).contains_key(s.id),
        elapsed(s.hb, now) <= CLIENT_TIMEOUT ==> on_tick(s, now) == (s, SessionAction::SendPing),
        s.hb as int + CLIENT_TIMEOUT + 100_000_000 == now as int ==> elapsed(s.hb, now)
            > CLIENT_TIMEOUT,
{
}

/// The time the peer was last heard from moves on an inbound heartbeat to an
/// active session, and on nothing else; and only the registry's answer to a
/// connecting session sets the id.
pub proof fn lemma_heartbeat_moves_only_on_ping(s: SessionView, event: SessionEvent)
    ensures
        step(s, event).0.hb != s.hb ==> {
            &&& s.state == SessionState::Active
            &&& event matches SessionEvent::Inbound(Ok(m), now)
            &&& m@ == MessageView::Ping
            &&& step(s, event).0.hb == now
        },
        step(s, event).0.id != s.id ==> {
            &&& s.state == SessionState::Connecting
            &&& event matches SessionEvent::Registered(Some(id))
            &&& step(s, event).0.id == id
        },
{
}

/// A session that has ended stays ended and asks for nothing more, whatever
/// happens.
pub proof fn lemma_terminated_is_final(s: SessionView, event: SessionEvent)
    requires
        s.state == SessionState::Terminated,
    ensures
        step(s, event) == (s, SessionAction::Nothing),
{
}

/// Exactly once: over any run of events, a session that had not ended tells
/// the driver to send a `Disconnect` once if the run ends it, and never if
/// the run does not.
pub proof fn lemma_disconnect_exactly_once(s: SessionView, events: Seq<SessionEvent>)
    requires
        s.state != SessionState::Terminated,
    ensures
        disconnects_sent(s, events) == if state_after(s, events).state
            == SessionState::Terminated {
            1nat
        } else {
            0nat
        },
    decreases events.len(),
{
    if events.len() > 0 {
        lemma_disconnect_exactly_once(s, events.drop_last());
    }
}

} // verus!
