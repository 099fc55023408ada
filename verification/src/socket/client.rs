//! The bot's end of the connection, as a state machine.
//!
//! The client sends a heartbeat on every tick and notes when the backend's
//! heartbeat was last seen. It has no timeout of its own. Anything but a
//! heartbeat from the backend, and the loss of the connection, is fatal: the
//! bot is taken to be of no use without its backend, so the whole process is
//! to end. That policy has one name here, `ClientAction::TerminateProcess`.

use crate::socket::codec::CodecError;
use crate::socket::message::{MessageView, ServerRequest};
use vstd::prelude::*;

verus! {

/// Why the client gave up.
#[derive(Debug, Clone, Copy, PartialEq, Eq, Structural)]
pub enum Violation {
    /// The backend sent a message other than a heartbeat.
    UnexpectedMessage,
    /// A frame could not be decoded, or the stream failed.
    DecodeFailure,
    /// The connection is gone.
    Disconnected,
}

/// What the driver is to do after an event.
#[derive(Debug, Clone, Copy, PartialEq, Eq, Structural)]
pub enum ClientAction {
    /// Nothing to do.
    Nothing,
    /// Send a heartbeat to the backend.
    SendPing,
    /// End the process that hosts the client.
    TerminateProcess(Violation),
}

/// A client as a mathematical value.
pub struct ChatClientView {
    /// When the backend's last heartbeat was seen.
    pub hb: u64,
    /// Whether the client has given up.
    pub stopped: bool,
}

/// A heartbeat tick: a heartbeat goes out, however long the backend has been
/// silent.
pub open spec fn client_on_tick(c: ChatClientView) -> (ChatClientView, ClientAction) {
    if c.stopped {
        (c, ClientAction::Nothing)
    } else {
        (c, ClientAction::SendPing)
    }
}

/// The client once it has given up, and the action that says so.
pub open spec fn client_gives_up(c: ChatClientView, why: Violation) -> (
    ChatClientView,
    ClientAction,
) {
    (ChatClientView { stopped: true, ..c }, ClientAction::TerminateProcess(why))
}

/// An inbound item: a heartbeat moves the time the backend was last heard
/// to `now`; any other message, and any error, is fatal.
pub open spec fn client_on_inbound(
    c: ChatClientView,
    msg: Result<ServerRequest, CodecError>,
    now: u64,
) -> (ChatClientView, ClientAction) {
    if c.stopped {
        (c, ClientAction::Nothing)
    } else {
        match msg {
            Ok(m) => if m@ == MessageView::Ping {
                (ChatClientView { hb: now, ..c }, ClientAction::Nothing)
            } else {
                client_gives_up(c, Violation::UnexpectedMessage)
            },
            Err(_) => client_gives_up(c, Violation::DecodeFailure),
        }
    }
}

/// The loss of the connection is fatal.
pub open spec fn client_on_stopped(c: ChatClientView) -> (ChatClientView, ClientAction) {
    if c.stopped {
        (c, ClientAction::Nothing)
    } else {
        client_gives_up(c, Violation::Disconnected)
    }
}

/// The bot's end of the connection.
#[derive(Debug, Clone, Copy, PartialEq, Eq)]
pub struct ChatClient {
    hb: u64,
    stopped: bool,
}

impl View for ChatClient {
    type V = ChatClientView;

    closed spec fn view(&self) -> ChatClientView {
        ChatClientView { hb: self.hb, stopped: self.stopped }
    }
}

impl ChatClient {
    /// A client whose connection has just been made, at time `now`.
    pub fn new(now: u64) -> (c: ChatClient)
        ensures
            c@ == (ChatClientView { hb: now, stopped: false }),
    {
        ChatClient { hb: now, stopped: false }
    }

    /// When the backend's last heartbeat was seen.
    pub fn last_heartbeat(&self) -> (hb: u64)
        ensures
            hb == self@.hb,
    {
        self.hb
    }

    /// Whether the client has given up.
    pub fn is_stopped(&self) -> (stopped: bool)
        ensures
            stopped == self@.stopped,
    {
        self.stopped
    }

    fn give_up(&mut self, why: Violation) -> (action: ClientAction)
        ensures
            (final(self)@, action) == client_gives_up(old(self)@, why),
    {
        self.stopped = true;
        ClientAction::TerminateProcess(why)
    }

    /// Takes a heartbeat tick.
    pub fn hb(&self) -> (action: ClientAction)
        ensures
            (self@, action) == client_on_tick(self@),
    {
        if self.stopped {
            ClientAction::Nothing
        } else {
            ClientAction::SendPing
        }
    }

    /// Takes what the inbound stream handed over at time `now`.
    pub fn handle(&mut self, msg: Result<ServerRequest, CodecError>, now: u64) -> (action:
        ClientAction)
        ensures
            (final(self)@, action) == client_on_inbound(old(self)@, msg, now),
    {
        if self.stopped {
            return ClientAction::Nothing;
        }
        match msg {
            Ok(ServerRequest::Ping) => {
                self.hb = now;
                ClientAction::Nothing
            },
            Ok(ServerRequest::GetUser(_)) => self.give_up(Violation::UnexpectedMessage),
            Err(_) => self.give_up(Violation::DecodeFailure),
        }
    }

    /// Takes the loss of the connection.
    pub fn stopped(&mut self) -> (action: ClientAction)
        ensures
            (final(self)@, action) == client_on_stopped(old(self)@),
    {
        if self.stopped {
            ClientAction::Nothing
        } else {
            self.give_up(Violation::Disconnected)
        }
    }
}

/// No timeout on this side: however long the backend has been silent, a
/// client that has not given up answers a tick with a heartbeat and stays as
/// it is. Only a message other than a heartbeat, an error or the loss of the
/// connection makes it give up, and then it stays that way.
pub proof fn lemma_client_never_times_out(c: ChatClientView)
    ensures
        !c.stopped ==> client_on_tick(c) == (c, ClientAction::SendPing),
        c.stopped ==> client_on_tick(c) == (c, ClientAction::Nothing) && client_on_stopped(c) == (
            c,
            ClientAction::Nothing,
        ),
{
}

} // verus!
