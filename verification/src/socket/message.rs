//! The messages that travel over the link, one vocabulary per direction, and
//! the two requests that a session sends to the registry.

use vstd::prelude::*;

verus! {

/// What the backend sends to the bot.
#[derive(Debug, PartialEq, Eq)]
pub enum ServerRequest {
    /// Heartbeat.
    Ping,
    /// Asks the bot about a user. Defined on the wire, not yet answered by any handler.
    GetUser(String),
}

/// What the bot sends to the backend.
#[derive(Debug, PartialEq, Eq)]
pub enum BotResponse {
    /// Heartbeat.
    Ping,
    /// Describes a user. Defined on the wire, not yet produced by any handler.
    User(String),
}

/// A message of either vocabulary as a mathematical value: the heartbeat, or
/// the one variant that carries a string (`GetUser` towards the bot, `User`
/// towards the backend) with the characters it carries.
pub enum MessageView {
    Ping,
    Payload(Seq<char>),
}

impl View for ServerRequest {
    type V = MessageView;

    open spec fn view(&self) -> MessageView {
        match self {
            ServerRequest::Ping => MessageView::Ping,
            ServerRequest::GetUser(s) => MessageView::Payload(s@),
        }
    }
}

impl View for BotResponse {
    type V = MessageView;

    open spec fn view(&self) -> MessageView {
        match self {
            BotResponse::Ping => MessageView::Ping,
            BotResponse::User(s) => MessageView::Payload(s@),
        }
    }
}

impl Clone for ServerRequest {
    fn clone(&self) -> (r: Self)
        ensures
            r@ == self@,
    {
        match self {
            ServerRequest::Ping => ServerRequest::Ping,
            ServerRequest::GetUser(s) => ServerRequest::GetUser(s.clone()),
        }
    }
}

impl Clone for BotResponse {
    fn clone(&self) -> (r: Self)
        ensures
            r@ == self@,
    {
        match self {
            BotResponse::Ping => BotResponse::Ping,
            BotResponse::User(s) => BotResponse::User(s.clone()),
        }
    }
}

/// Sent to the registry when a session comes up. `addr` is the handle under
/// which the session can be reached; the registry stores it and never looks
/// inside.
pub struct Connect<H> {
    pub addr: H,
}

/// Sent to the registry when a session goes away.
#[derive(Debug, Clone, Copy, PartialEq, Eq, Structural)]
pub struct Disconnect {
    pub id: usize,
}

} // verus!
