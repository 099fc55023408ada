use shared_lib::socket::client::{ChatClient, ClientAction, Violation};
use shared_lib::socket::codec::CodecError;
use shared_lib::socket::message::{BotResponse, Connect, Disconnect, ServerRequest};
use shared_lib::socket::server::Server;
use shared_lib::socket::session::{
    Session, SessionAction, SessionEvent, SessionState, StopReason, CLIENT_TIMEOUT,
    HEARTBEAT_INTERVAL,
};

const SECOND: u64 = 1_000_000_000;

fn active(id: usize, now: u64) -> Session {
    let mut s = Session::new(now);
    assert_eq!(s.registered(Some(id)), SessionAction::Nothing);
    s
}

#[test]
fn the_periods_are_one_and_ten_seconds() {
    assert_eq!(HEARTBEAT_INTERVAL, SECOND);
    assert_eq!(CLIENT_TIMEOUT, 10 * SECOND);
}

#[test]
fn a_new_session_is_connecting_without_an_id() {
    let s = Session::new(42);
    assert_eq!(s.state(), SessionState::Connecting);
    assert_eq!(s.id(), 0);
    assert_eq!(s.last_heartbeat(), 42);
}

#[test]
fn the_registry_answer_makes_the_session_active() {
    let mut s = Session::new(0);
    assert_eq!(s.registered(Some(99)), SessionAction::Nothing);
    assert_eq!(s.state(), SessionState::Active);
    assert_eq!(s.id(), 99);
    // a second answer is ignored
    assert_eq!(s.registered(Some(5)), SessionAction::Nothing);
    assert_eq!(s.id(), 99);
}

#[test]
fn no_answer_from_the_registry_ends_the_session() {
    let mut s = Session::new(0);
    assert_eq!(
        s.registered(None),
        SessionAction::Stop(Disconnect { id: 0 }, StopReason::RegistryUnreachable)
    );
    assert_eq!(s.state(), SessionState::Terminated);
}

#[test]
fn events_are_held_while_connecting() {
    let mut s = Session::new(0);
    assert_eq!(s.hb(20 * SECOND), SessionAction::Hold);
    assert_eq!(s.handle(Ok(BotResponse::Ping), SECOND), SessionAction::Hold);
    assert_eq!(s.handle(Ok(BotResponse::User("u".to_string())), SECOND), SessionAction::Hold);
    assert_eq!(s.finished(), SessionAction::Hold);
    assert_eq!(s.state(), SessionState::Connecting);
    assert_eq!(s.last_heartbeat(), 0);
}

#[test]
fn a_tick_within_ten_seconds_sends_a_ping() {
    let t0 = 5 * SECOND;
    let mut s = active(3, t0);
    assert_eq!(s.hb(t0), SessionAction::SendPing);
    assert_eq!(s.hb(t0 + SECOND), SessionAction::SendPing);
    assert_eq!(s.hb(t0 + 10 * SECOND), SessionAction::SendPing);
    assert_eq!(s.state(), SessionState::Active);
    // a clock reading before the last heartbeat counts as no time passed
    assert_eq!(s.hb(0), SessionAction::SendPing);
}

#[test]
fn a_tick_after_more_than_ten_seconds_is_a_timeout() {
    let t0 = 5 * SECOND;
    let mut s = active(3, t0);
    assert_eq!(
        s.hb(t0 + 10 * SECOND + 1),
        SessionAction::Stop(Disconnect { id: 3 }, StopReason::Timeout)
    );
    assert_eq!(s.state(), SessionState::Terminated);
}

#[test]
fn timeout_removes_the_registry_entry_exactly_once() {
    let mut server: Server<&str> = Server::default();
    let id = server.connect(Connect { addr: "session" });
    let other = loop {
        let other = server.connect(Connect { addr: "other" });
        if other != id {
            break other;
        }
    };
    let t0 = 77 * SECOND;
    let mut s = Session::new(t0);
    s.registered(Some(id));
    assert_eq!(s.handle(Ok(BotResponse::Ping), t0), SessionAction::Nothing);

    let mut disconnects = 0;
    let events = vec![
        SessionEvent::Tick(t0 + 10 * SECOND + SECOND / 10),
        SessionEvent::Tick(t0 + 12 * SECOND),
        SessionEvent::Inbound(Ok(BotResponse::Ping), t0 + 12 * SECOND),
        SessionEvent::Closed,
        SessionEvent::Stopping,
    ];
    for event in events {
        if let SessionAction::Stop(msg, reason) = s.step(event) {
            assert_eq!(reason, StopReason::Timeout);
            assert_eq!(msg, Disconnect { id });
            server.disconnect(msg);
            disconnects += 1;
        }
    }
    assert_eq!(disconnects, 1);
    assert_eq!(s.state(), SessionState::Terminated);
    assert!(!server.contains(id));
    assert!(server.contains(other));
    assert_eq!(server.len(), 1);
}

#[test]
fn a_ping_moves_the_deadline() {
    let mut s = active(1, 0);
    assert_eq!(s.handle(Ok(BotResponse::Ping), 9 * SECOND), SessionAction::Nothing);
    assert_eq!(s.last_heartbeat(), 9 * SECOND);
    assert_eq!(s.hb(19 * SECOND), SessionAction::SendPing);
    assert_eq!(
        s.hb(19 * SECOND + 1),
        SessionAction::Stop(Disconnect { id: 1 }, StopReason::Timeout)
    );
}

#[test]
fn any_other_message_is_a_protocol_violation() {
    let mut s = active(8, 0);
    assert_eq!(
        s.handle(Ok(BotResponse::User("u".to_string())), SECOND),
        SessionAction::Stop(Disconnect { id: 8 }, StopReason::ProtocolViolation)
    );
    assert_eq!(s.state(), SessionState::Terminated);
    assert_eq!(s.handle(Ok(BotResponse::Ping), SECOND), SessionAction::Nothing);
    assert_eq!(s.hb(SECOND), SessionAction::Nothing);
    assert_eq!(s.stopping(), SessionAction::Nothing);
}

#[test]
fn a_decode_failure_ends_the_session() {
    let mut s = active(8, 0);
    assert_eq!(
        s.handle(Err(CodecError::InvalidPayload), SECOND),
        SessionAction::Stop(Disconnect { id: 8 }, StopReason::DecodeFailure)
    );
}

#[test]
fn the_end_of_the_stream_ends_the_session() {
    let mut s = active(8, 0);
    assert_eq!(s.finished(), SessionAction::Stop(Disconnect { id: 8 }, StopReason::Closed));
    assert_eq!(s.finished(), SessionAction::Nothing);
}

#[test]
fn a_stop_from_outside_tells_the_registry_once() {
    let mut s = active(4, 0);
    assert_eq!(s.stopping(), SessionAction::Stop(Disconnect { id: 4 }, StopReason::Stopped));
    assert_eq!(s.stopping(), SessionAction::Nothing);
    let mut c = Session::new(0);
    assert_eq!(c.stopping(), SessionAction::Stop(Disconnect { id: 0 }, StopReason::Stopped));
}

#[test]
fn step_takes_every_event() {
    let mut s = Session::new(0);
    assert_eq!(s.step(SessionEvent::Tick(1)), SessionAction::Hold);
    assert_eq!(s.step(SessionEvent::Registered(Some(6))), SessionAction::Nothing);
    assert_eq!(s.step(SessionEvent::Tick(SECOND)), SessionAction::SendPing);
    assert_eq!(
        s.step(SessionEvent::Inbound(Ok(BotResponse::Ping), 2 * SECOND)),
        SessionAction::Nothing
    );
    assert_eq!(s.last_heartbeat(), 2 * SECOND);
    assert_eq!(
        s.step(SessionEvent::Closed),
        SessionAction::Stop(Disconnect { id: 6 }, StopReason::Closed)
    );
    assert_eq!(s.step(SessionEvent::Stopping), SessionAction::Nothing);
}

#[test]
fn the_client_pings_on_every_tick_without_a_timeout() {
    let mut c = ChatClient::new(3);
    assert_eq!(c.last_heartbeat(), 3);
    assert_eq!(c.hb(), ClientAction::SendPing);
    assert_eq!(c.handle(Ok(ServerRequest::Ping), 100 * SECOND), ClientAction::Nothing);
    assert_eq!(c.last_heartbeat(), 100 * SECOND);
    assert_eq!(c.hb(), ClientAction::SendPing);
    assert!(!c.is_stopped());
}

#[test]
fn the_client_ends_the_process_on_anything_but_a_ping() {
    let mut c = ChatClient::new(0);
    assert_eq!(
        c.handle(Ok(ServerRequest::GetUser("u".to_string())), 1),
        ClientAction::TerminateProcess(Violation::UnexpectedMessage)
    );
    assert!(c.is_stopped());
    assert_eq!(c.hb(), ClientAction::Nothing);
    assert_eq!(c.handle(Ok(ServerRequest::Ping), 2), ClientAction::Nothing);
    assert_eq!(c.last_heartbeat(), 0);

    let mut c = ChatClient::new(0);
    assert_eq!(
        c.handle(Err(CodecError::InvalidPayload), 1),
        ClientAction::TerminateProcess(Violation::DecodeFailure)
    );
    let mut c = ChatClient::new(0);
    assert_eq!(c.stopped(), ClientAction::TerminateProcess(Violation::Disconnected));
    assert_eq!(c.stopped(), ClientAction::Nothing);
}
