use streamline_backend::channel::outbound_channel;
use streamline_backend::message::{EventType, WebSocketMessage};
use streamline_backend::registry::WebSocketState;
use streamline_backend::session::{
    after_read, after_write, next_write, ConnectionSession, InboundFrame, LoopControl,
    OutboundStep, SessionAction, SessionEvent, SessionPhase, SocketRead,
    HANDSHAKE_TIMEOUT_SECONDS,
};

const USER: u128 = 0x11111111_2222_3333_4444_555555555555;
const CONN: u128 = 0xaaaaaaaa_bbbb_cccc_dddd_eeeeeeeeeeee;
const AUTH_ERROR: &str = "{\"type\":\"auth_error\",\"message\":\"Authentication failed\"}";

fn text(frame: &str) -> SessionEvent {
    SessionEvent::FirstRead(SocketRead::Frame(InboundFrame::Text(frame.to_string())))
}

fn assert_rejected(actions: &[SessionAction]) {
    assert_eq!(actions.len(), 2);
    assert!(matches!(&actions[0], SessionAction::Send(frame) if frame == AUTH_ERROR));
    assert!(matches!(&actions[1], SessionAction::Close));
}

fn touches_registry(action: &SessionAction) -> bool {
    matches!(action, SessionAction::Register { .. } | SessionAction::Deregister { .. })
}

/// Performs the registry actions of a step as the caller of the library does.
fn perform(registry: &mut WebSocketState, actions: &[SessionAction]) {
    for action in actions {
        match action {
            SessionAction::Register { user_id, connection_id } => {
                let (tx, _rx) = outbound_channel();
                registry.add_connection(*user_id, *connection_id, tx);
            }
            SessionAction::Deregister { user_id, connection_id } => {
                registry.remove_connection(*user_id, *connection_id);
            }
            _ => {}
        }
    }
}

fn active_session(registry: &mut WebSocketState) -> ConnectionSession {
    let mut session = ConnectionSession::new(CONN);
    perform(registry, &session.step(text("{\"token\":\"good\"}")));
    perform(registry, &session.step(SessionEvent::TokenChecked(Some(USER))));
    perform(registry, &session.step(SessionEvent::AckWritten(true)));
    assert_eq!(session.phase, SessionPhase::Active { user_id: USER });
    session
}

#[test]
fn new_session_awaits_the_handshake() {
    let session = ConnectionSession::new(CONN);
    assert_eq!(session.connection_id, CONN);
    assert_eq!(session.phase, SessionPhase::AwaitingHandshake);
    assert!(!session.is_closed());
    assert_eq!(HANDSHAKE_TIMEOUT_SECONDS, 10);
}

#[test]
fn first_frame_with_a_token_goes_to_the_verifier() {
    let mut session = ConnectionSession::new(CONN);
    let actions = session.step(text("{\"token\":\"secret-token\"}"));
    assert_eq!(session.phase, SessionPhase::Verifying);
    assert_eq!(actions.len(), 1);
    assert!(matches!(&actions[0], SessionAction::VerifyToken(token) if token == "secret-token"));
}

#[test]
fn verified_token_registers_and_acknowledges() {
    let mut session = ConnectionSession::new(CONN);
    session.step(text("{\"token\":\"t\"}"));
    let actions = session.step(SessionEvent::TokenChecked(Some(USER)));
    assert_eq!(session.phase, SessionPhase::Acknowledging { user_id: USER });
    assert_eq!(actions.len(), 2);
    assert!(matches!(
        &actions[0],
        SessionAction::Register { user_id: USER, connection_id: CONN }
    ));
    assert!(matches!(
        &actions[1],
        SessionAction::Send(frame) if frame == "{\"type\":\"auth_success\",\"user_id\":\"11111111-2222-3333-4444-555555555555\",\"connection_id\":\"aaaaaaaa-bbbb-cccc-dddd-eeeeeeeeeeee\"}"
    ));
    let actions = session.step(SessionEvent::AckWritten(true));
    assert_eq!(session.phase, SessionPhase::Active { user_id: USER });
    assert_eq!(actions.len(), 1);
    assert!(matches!(&actions[0], SessionAction::StartLoops));
}

#[test]
fn invalid_token_yields_one_error_frame_and_no_registry_mutation() {
    let mut registry = WebSocketState::new();
    let mut session = ConnectionSession::new(CONN);
    let mut all = Vec::new();
    all.extend(session.step(text("{\"token\":\"forged\"}")));
    all.extend(session.step(SessionEvent::TokenChecked(None)));
    assert_eq!(session.phase, SessionPhase::Closed);
    assert!(session.is_closed());
    for event in [
        SessionEvent::TokenChecked(Some(USER)),
        SessionEvent::AckWritten(true),
        SessionEvent::OutboundEnded,
        SessionEvent::InboundEnded,
        text("{\"token\":\"again\"}"),
    ] {
        all.extend(session.step(event));
        assert_eq!(session.phase, SessionPhase::Closed);
    }
    assert_eq!(all.len(), 3);
    assert!(matches!(&all[0], SessionAction::VerifyToken(token) if token == "forged"));
    assert_rejected(&all[1..]);
    assert!(!all.iter().any(touches_registry));
    perform(&mut registry, &all);
    assert_eq!(registry.user_count(), 0);
}

#[test]
fn malformed_first_frames_are_rejected() {
    for frame in ["", "not json", "{}", "{\"token\":7}", "[1,2]", "{\"tok\":\"x\"}"] {
        let mut session = ConnectionSession::new(CONN);
        let actions = session.step(text(frame));
        assert_eq!(session.phase, SessionPhase::Closed);
        assert_rejected(&actions);
    }
}

#[test]
fn first_reads_that_are_no_text_frame_are_rejected() {
    let reads = vec![
        SocketRead::Frame(InboundFrame::Binary),
        SocketRead::Frame(InboundFrame::Ping),
        SocketRead::Frame(InboundFrame::Pong),
        SocketRead::Frame(InboundFrame::Close),
        SocketRead::Failed,
        SocketRead::Ended,
    ];
    for read in reads {
        let mut session = ConnectionSession::new(CONN);
        let actions = session.step(SessionEvent::FirstRead(read));
        assert_eq!(session.phase, SessionPhase::Closed);
        assert_rejected(&actions);
    }
}

#[test]
fn handshake_that_takes_too_long_is_rejected() {
    let mut session = ConnectionSession::new(CONN);
    let actions = session.step(SessionEvent::HandshakeTimedOut);
    assert_eq!(session.phase, SessionPhase::Closed);
    assert_rejected(&actions);
}

#[test]
fn open_handshake_decides_on_the_token() {
    let mut session = ConnectionSession::new(CONN);
    let actions = session.open_handshake(Some("tok".to_string()));
    assert_eq!(session.phase, SessionPhase::Verifying);
    assert!(matches!(&actions[0], SessionAction::VerifyToken(token) if token == "tok"));
    assert!(session.open_handshake(Some("tok".to_string())).is_empty());
    assert_eq!(session.phase, SessionPhase::Verifying);

    let mut session = ConnectionSession::new(CONN);
    let actions = session.open_handshake(None);
    assert_eq!(session.phase, SessionPhase::Closed);
    assert_rejected(&actions);
}

#[test]
fn failed_acknowledgement_cleans_up() {
    let mut registry = WebSocketState::new();
    let mut session = ConnectionSession::new(CONN);
    perform(&mut registry, &session.step(text("{\"token\":\"t\"}")));
    perform(&mut registry, &session.step(SessionEvent::TokenChecked(Some(USER))));
    assert_eq!(registry.user_of(CONN), Some(USER));
    let actions = session.step(SessionEvent::AckWritten(false));
    assert_eq!(session.phase, SessionPhase::Closed);
    assert_eq!(actions.len(), 2);
    assert!(matches!(
        &actions[0],
        SessionAction::Deregister { user_id: USER, connection_id: CONN }
    ));
    assert!(matches!(&actions[1], SessionAction::Close));
    perform(&mut registry, &actions);
    assert_eq!(registry.user_of(CONN), None);
    assert!(!registry.has_user(USER));
}

#[test]
fn outbound_failure_cancels_inbound_and_deregisters_once() {
    let mut registry = WebSocketState::new();
    let mut session = active_session(&mut registry);
    assert_eq!(registry.connection_ids(USER), vec![CONN]);

    let actions = session.step(SessionEvent::OutboundEnded);

    assert_eq!(session.phase, SessionPhase::Closed);
    assert_eq!(actions.len(), 3);
    assert!(matches!(&actions[0], SessionAction::StopInbound));
    assert!(matches!(
        &actions[1],
        SessionAction::Deregister { user_id: USER, connection_id: CONN }
    ));
    assert!(matches!(&actions[2], SessionAction::Close));
    perform(&mut registry, &actions);
    assert_eq!(registry.user_count(), 0);
    assert_eq!(registry.user_of(CONN), None);

    assert!(session.step(SessionEvent::InboundEnded).is_empty());
    assert!(session.step(SessionEvent::OutboundEnded).is_empty());
    assert_eq!(session.phase, SessionPhase::Closed);
}

#[test]
fn inbound_end_cancels_outbound_and_deregisters_once() {
    let mut registry = WebSocketState::new();
    let mut session = active_session(&mut registry);
    let actions = session.step(SessionEvent::InboundEnded);
    assert_eq!(session.phase, SessionPhase::Closed);
    assert_eq!(actions.len(), 3);
    assert!(matches!(&actions[0], SessionAction::StopOutbound));
    assert!(matches!(
        &actions[1],
        SessionAction::Deregister { user_id: USER, connection_id: CONN }
    ));
    assert!(matches!(&actions[2], SessionAction::Close));
    perform(&mut registry, &actions);
    assert_eq!(registry.user_count(), 0);
    assert!(session.step(SessionEvent::OutboundEnded).is_empty());
}

#[test]
fn cleanup_leaves_the_other_connections_of_the_user() {
    let mut registry = WebSocketState::new();
    let (tx, _rx) = outbound_channel();
    registry.add_connection(USER, 1, tx);
    let mut session = active_session(&mut registry);
    assert_eq!(registry.connection_ids(USER), vec![1, CONN]);
    perform(&mut registry, &session.step(SessionEvent::OutboundEnded));
    assert_eq!(registry.connection_ids(USER), vec![1]);
}

#[test]
fn events_out_of_turn_change_nothing() {
    let mut session = ConnectionSession::new(CONN);
    for event in [
        SessionEvent::TokenChecked(Some(USER)),
        SessionEvent::AckWritten(true),
        SessionEvent::OutboundEnded,
        SessionEvent::InboundEnded,
    ] {
        assert!(session.step(event).is_empty());
        assert_eq!(session.phase, SessionPhase::AwaitingHandshake);
    }
    session.step(text("{\"token\":\"t\"}"));
    for event in [
        text("{\"token\":\"t\"}"),
        SessionEvent::HandshakeTimedOut,
        SessionEvent::AckWritten(false),
        SessionEvent::OutboundEnded,
    ] {
        assert!(session.step(event).is_empty());
        assert_eq!(session.phase, SessionPhase::Verifying);
    }
    let mut registry = WebSocketState::new();
    let mut session = active_session(&mut registry);
    for event in [
        text("{\"token\":\"t\"}"),
        SessionEvent::HandshakeTimedOut,
        SessionEvent::TokenChecked(None),
        SessionEvent::AckWritten(false),
    ] {
        assert!(session.step(event).is_empty());
        assert_eq!(session.phase, SessionPhase::Active { user_id: USER });
    }
}

#[test]
fn inbound_loop_ends_on_close_failure_and_end_of_stream() {
    assert_eq!(after_read(&SocketRead::Frame(InboundFrame::Close)), LoopControl::Stop);
    assert_eq!(after_read(&SocketRead::Failed), LoopControl::Stop);
    assert_eq!(after_read(&SocketRead::Ended), LoopControl::Stop);
    assert_eq!(
        after_read(&SocketRead::Frame(InboundFrame::Text("subscribe".to_string()))),
        LoopControl::Continue
    );
    assert_eq!(after_read(&SocketRead::Frame(InboundFrame::Binary)), LoopControl::Continue);
    assert_eq!(after_read(&SocketRead::Frame(InboundFrame::Ping)), LoopControl::Continue);
    assert_eq!(after_read(&SocketRead::Frame(InboundFrame::Pong)), LoopControl::Continue);
}

#[test]
fn outbound_loop_writes_events_and_ends_with_the_queue() {
    let event = WebSocketMessage::new(EventType::Insert, "projects", USER, None, None);
    match next_write(Some(&event)) {
        OutboundStep::Write(frame) => assert_eq!(frame, event.to_frame()),
        OutboundStep::Stop => panic!("an event must be written"),
    }
    assert!(matches!(next_write(None), OutboundStep::Stop));
    assert_eq!(after_write(true), LoopControl::Continue);
    assert_eq!(after_write(false), LoopControl::Stop);
}
