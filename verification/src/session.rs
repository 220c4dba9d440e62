//! The life of one connection: the handshake that admits it, the two loops
//! that serve it, and the cleanup that ends it.
//!
//! The library decides; the caller acts. Each event that the caller observes
//! on the socket, from the verifier of tokens or from its two loops goes into
//! `ConnectionSession::step`, which answers with the next state and the
//! actions to perform, in order.

use vstd::prelude::*;
use vstd::string::*;
use crate::frames::{
    auth_error_frame, auth_success_frame, event_frame, handshake_token, read_handshake_token,
    write_auth_error, write_auth_success, AUTH_FAILED_MESSAGE,
};
use crate::message::WebSocketMessage;

verus! {

/// How long a new connection may take to send its first frame, in seconds.
pub const HANDSHAKE_TIMEOUT_SECONDS: u64 = 10;

/// A frame that arrived on the socket.
#[derive(Debug)]
pub enum InboundFrame {
    Text(String),
    Binary,
    Ping,
    Pong,
    Close,
}

/// What one read of the socket gave.
#[derive(Debug)]
pub enum SocketRead {
    /// A frame arrived.
    Frame(InboundFrame),
    /// The read failed.
    Failed,
    /// The peer is gone: no frame will come any more.
    Ended,
}

/// Where a connection stands in its life.
#[derive(Clone, Copy, Debug, PartialEq, Eq, Structural)]
pub enum SessionPhase {
    /// Accepted; the first frame has not arrived yet.
    AwaitingHandshake,
    /// The token of the first frame is with the verifier.
    Verifying,
    /// Registered under the user; the acknowledgement is on its way out.
    Acknowledging { user_id: u128 },
    /// Registered under the user; both loops run.
    Active { user_id: u128 },
    /// Over: turned down, or cleaned up after serving.
    Closed,
}

/// The state of one connection.
#[derive(Clone, Copy, Debug, PartialEq, Eq, Structural)]
pub struct ConnectionSession {
    pub connection_id: u128,
    pub phase: SessionPhase,
}

/// What the caller observed.
#[derive(Debug)]
pub enum SessionEvent {
    /// The first read of the socket returned.
    FirstRead(SocketRead),
    /// No first frame arrived in time.
    HandshakeTimedOut,
    /// The verifier answered: the user that the token stands for, or `None`
    /// where it turned the token down.
    TokenChecked(Option<u128>),
    /// The acknowledgement was written to the socket, or could not be.
    AckWritten(bool),
    /// The outbound loop is over, for whatever reason: the queue closed, a
    /// write failed, or the loop broke down.
    OutboundEnded,
    /// The inbound loop is over, for whatever reason: the peer closed, a read
    /// failed, or the loop broke down.
    InboundEnded,
}

/// What the caller is to do.
#[derive(Debug)]
pub enum SessionAction {
    /// Hand the token to the verifier and come back with `TokenChecked`.
    VerifyToken(String),
    /// Register the connection, with the sending half of its queue.
    Register { user_id: u128, connection_id: u128 },
    /// Write the frame to the socket. After `Register`, come back with
    /// `AckWritten`; before `Close`, a failure to write is of no account.
    Send(String),
    /// Start the outbound and the inbound loop, and come back with
    /// `OutboundEnded` or `InboundEnded` when the first of them is over.
    StartLoops,
    /// Cancel the inbound loop and wait until it is over.
    StopInbound,
    /// Cancel the outbound loop and wait until it is over.
    StopOutbound,
    /// Deregister the connection.
    Deregister { user_id: u128, connection_id: u128 },
    /// Close the socket. Nothing follows.
    Close,
}

/// What an action says: the mathematical value of a `SessionAction`.
pub enum Action {
    VerifyToken(Seq<char>),
    Register { user_id: u128, connection_id: u128 },
    Send(Seq<char>),
    StartLoops,
    StopInbound,
    StopOutbound,
    Deregister { user_id: u128, connection_id: u128 },
    Close,
}

impl DeepView for SessionAction {
    type V = Action;

    open spec fn deep_view(&self) -> Action {
        match *self {
            SessionAction::VerifyToken(token) => Action::VerifyToken(token@),
            SessionAction::Register { user_id, connection_id } => Action::Register {
                user_id,
                connection_id,
            },
            SessionAction::Send(frame) => Action::Send(frame@),
            SessionAction::StartLoops => Action::StartLoops,
            SessionAction::StopInbound => Action::StopInbound,
            SessionAction::StopOutbound => Action::StopOutbound,
            SessionAction::Deregister { user_id, connection_id } => Action::Deregister {
                user_id,
                connection_id,
            },
            SessionAction::Close => Action::Close,
        }
    }
}

/// The token that the first read of a connection carries, if it carries one:
/// the read must have given a text frame, and the text a handshake token.
pub open spec fn offered_token(read: SocketRead) -> Option<Seq<char>> {
    match read {
        SocketRead::Frame(InboundFrame::Text(text)) => handshake_token(text@),
        _ => None,
    }
}

/// How a handshake is turned down: one error frame, then the socket closes.
pub open spec fn rejection() -> Seq<Action> {
    seq![Action::Send(auth_error_frame(AUTH_FAILED_MESSAGE@)), Action::Close]
}

/// How a registered connection is cleaned up.
pub open spec fn cleanup(user_id: u128, connection_id: u128) -> Seq<Action> {
    seq![Action::Deregister { user_id, connection_id }, Action::Close]
}

impl ConnectionSession {
    /// The state of a connection that was just accepted under `connection_id`.
    pub open spec fn start(connection_id: u128) -> ConnectionSession {
        ConnectionSession { connection_id, phase: SessionPhase::AwaitingHandshake }
    }

    /// This state in another phase.
    pub open spec fn moved_to(self, phase: SessionPhase) -> ConnectionSession {
        ConnectionSession { connection_id: self.connection_id, phase }
    }

    /// The rules of the session: the state that follows `self` on `event`,
    /// and the actions that the event calls for. An event that does not belong
    /// to the phase changes nothing and calls for nothing.
    pub open spec fn transition(self, event: SessionEvent) -> (ConnectionSession, Seq<Action>) {
        let id = self.connection_id;
        match (self.phase, event) {
            (SessionPhase::AwaitingHandshake, SessionEvent::FirstRead(read)) => match offered_token(
                read,
            ) {
                Some(token) => (
                    self.moved_to(SessionPhase::Verifying),
                    seq![Action::VerifyToken(token)],
                ),
                None => (self.moved_to(SessionPhase::Closed), rejection()),
            },
            (SessionPhase::AwaitingHandshake, SessionEvent::HandshakeTimedOut) => (
                self.moved_to(SessionPhase::Closed),
                rejection(),
            ),
            (SessionPhase::Verifying, SessionEvent::TokenChecked(Some(user_id))) => (
                self.moved_to(SessionPhase::Acknowledging { user_id }),
                seq![
                    Action::Register { user_id, connection_id: id },
                    Action::Send(auth_success_frame(user_id, id)),
                ],
            ),
            (SessionPhase::Verifying, SessionEvent::TokenChecked(None)) => (
                self.moved_to(SessionPhase::Closed),
                rejection(),
            ),
            (SessionPhase::Acknowledging { user_id }, SessionEvent::AckWritten(true)) => (
                self.moved_to(SessionPhase::Active { user_id }),
                seq![Action::StartLoops],
            ),
            (SessionPhase::Acknowledging { user_id }, SessionEvent::AckWritten(false)) => (
                self.moved_to(SessionPhase::Closed),
                cleanup(user_id, id),
            ),
            (SessionPhase::Active { user_id }, SessionEvent::OutboundEnded) => (
                self.moved_to(SessionPhase::Closed),
                seq![Action::StopInbound] + cleanup(user_id, id),
            ),
            (SessionPhase::Active { user_id }, SessionEvent::InboundEnded) => (
                self.moved_to(SessionPhase::Closed),
                seq![Action::StopOutbound] + cleanup(user_id, id),
            ),
            _ => (self, Seq::empty()),
        }
    }

    /// Begins the session of a connection that was just accepted.
    pub fn new(connection_id: u128) -> (session: Self)
        ensures
            session == Self::start(connection_id),
    {
        ConnectionSession { connection_id, phase: SessionPhase::AwaitingHandshake }
    }

    /// Turns the handshake down.
    fn reject(&mut self) -> (actions: Vec<SessionAction>)
        ensures
            *final(self) == old(self).moved_to(SessionPhase::Closed),
            actions.deep_view() == rejection(),
    {
        self.phase = SessionPhase::Closed;
        let frame = write_auth_error(AUTH_FAILED_MESSAGE);
        let actions = vec![SessionAction::Send(frame), SessionAction::Close];
        assert(actions.deep_view() =~= rejection());
        actions
    }

    /// Cleans up after a registered connection, once `first` is done.
    fn finish(&mut self, user_id: u128, first: Option<SessionAction>) -> (actions: Vec<
        SessionAction,
    >)
        ensures
            *final(self) == old(self).moved_to(SessionPhase::Closed),
            actions.deep_view() == match first {
                Some(action) => seq![action.deep_view()],
                None => Seq::empty(),
            } + cleanup(user_id, old(self).connection_id),
    {
        self.phase = SessionPhase::Closed;
        let mut actions: Vec<SessionAction> = Vec::new();
        match first {
            Some(action) => {
                actions.push(action);
            },
            None => {},
        }
        actions.push(SessionAction::Deregister { user_id, connection_id: self.connection_id });
        actions.push(SessionAction::Close);
        assert(actions.deep_view() =~= match first {
            Some(action) => seq![action.deep_view()],
            None => Seq::empty(),
        } + cleanup(user_id, old(self).connection_id));
        actions
    }

    /// The handshake, given what the first read carried: a token goes to the
    /// verifier, anything else is turned down. Out of turn, nothing happens.
    pub fn open_handshake(&mut self, token: Option<String>) -> (actions: Vec<SessionAction>)
        ensures
            (*final(self), actions.deep_view()) == match (old(self).phase, token) {
                (SessionPhase::AwaitingHandshake, Some(text)) => (
                    old(self).moved_to(SessionPhase::Verifying),
                    seq![Action::VerifyToken(text@)],
                ),
                (SessionPhase::AwaitingHandshake, None) => (
                    old(self).moved_to(SessionPhase::Closed),
                    rejection(),
                ),
                _ => (*old(self), Seq::empty()),
            },
    {
        match self.phase {
            SessionPhase::AwaitingHandshake => match token {
                Some(text) => {
                    self.phase = SessionPhase::Verifying;
                    let actions = vec![SessionAction::VerifyToken(text)];
                    assert(actions.deep_view() =~= seq![Action::VerifyToken(text@)]);
                    actions
                },
                None => self.reject(),
            },
            _ => {
                let actions: Vec<SessionAction> = Vec::new();
                assert(actions.deep_view() =~= Seq::empty());
                actions
            },
        }
    }

    /// Moves the session on by one event: updates the state and says what the
    /// caller is to do, in order.
    pub fn step(&mut self, event: SessionEvent) -> (actions: Vec<SessionAction>)
        ensures
            (*final(self), actions.deep_view()) == old(self).transition(event),
    {
        let id = self.connection_id;
        match (self.phase, event) {
            (SessionPhase::AwaitingHandshake, SessionEvent::FirstRead(read)) => {
                let token = match &read {
                    SocketRead::Frame(InboundFrame::Text(text)) => read_handshake_token(
                        text.as_str(),
                    ),
                    _ => None,
                };
                self.open_handshake(token)
            },
            (SessionPhase::AwaitingHandshake, SessionEvent::HandshakeTimedOut) => self.reject(),
            (SessionPhase::Verifying, SessionEvent::TokenChecked(Some(user_id))) => {
                self.phase = SessionPhase::Acknowledging { user_id };
                let actions = vec![
                    SessionAction::Register { user_id, connection_id: id },
                    SessionAction::Send(write_auth_success(user_id, id)),
                ];
                assert(actions.deep_view() =~= seq![
                    Action::Register { user_id, connection_id: id },
                    Action::Send(auth_success_frame(user_id, id)),
                ]);
                actions
            },
            (SessionPhase::Verifying, SessionEvent::TokenChecked(None)) => self.reject(),
            (SessionPhase::Acknowledging { user_id }, SessionEvent::AckWritten(true)) => {
                self.phase = SessionPhase::Active { user_id };
                let actions = vec![SessionAction::StartLoops];
                assert(actions.deep_view() =~= seq![Action::StartLoops]);
                actions
            },
            (SessionPhase::Acknowledging { user_id }, SessionEvent::AckWritten(false)) => {
                let actions = self.finish(user_id, None);
                assert(actions.deep_view() =~= cleanup(user_id, id));
                actions
            },
            (SessionPhase::Active { user_id }, SessionEvent::OutboundEnded) => self.finish(
                user_id,
                Some(SessionAction::StopInbound),
            ),
            (SessionPhase::Active { user_id }, SessionEvent::InboundEnded) => self.finish(
                user_id,
                Some(SessionAction::StopOutbound),
            ),
            _ => {
                let actions: Vec<SessionAction> = Vec::new();
                assert(actions.deep_view() =~= Seq::empty());
                actions
            },
        }
    }

    /// The user under whom the connection stands in the registry in this
    /// state; `None` where it does not stand there.
    pub open spec fn registered_user(self) -> Option<u128> {
        match self.phase {
            SessionPhase::Acknowledging { user_id } => Some(user_id),
            SessionPhase::Active { user_id } => Some(user_id),
            _ => None,
        }
    }

    /// Whether the session is over.
    pub fn is_closed(&self) -> (closed: bool)
        ensures
            closed == (self.phase == SessionPhase::Closed),
    {
        match self.phase {
            SessionPhase::Closed => true,
            _ => false,
        }
    }
}

/// Whether a loop of the session goes round once more.
#[derive(Clone, Copy, Debug, PartialEq, Eq, Structural)]
pub enum LoopControl {
    Continue,
    Stop,
}

/// What the outbound loop does with what it took from the queue.
#[derive(Debug)]
pub enum OutboundStep {
    /// Write this frame to the socket.
    Write(String),
    /// The queue is closed: the loop is over.
    Stop,
}

/// The rule of the inbound loop: a close frame, a failed read and the end of
/// the stream end the loop; every other frame is read and passed over.
pub open spec fn inbound_control(read: SocketRead) -> LoopControl {
    match read {
        SocketRead::Frame(InboundFrame::Close) => LoopControl::Stop,
        SocketRead::Frame(_) => LoopControl::Continue,
        SocketRead::Failed => LoopControl::Stop,
        SocketRead::Ended => LoopControl::Stop,
    }
}

/// Decides, after one read of the inbound loop, whether the loop goes on.
pub fn after_read(read: &SocketRead) -> (control: LoopControl)
    ensures
        control == inbound_control(*read),
{
    match read {
        SocketRead::Frame(InboundFrame::Close) => LoopControl::Stop,
        SocketRead::Frame(_) => LoopControl::Continue,
        SocketRead::Failed => LoopControl::Stop,
        SocketRead::Ended => LoopControl::Stop,
    }
}

/// Decides what the outbound loop does with what it took from the queue: an
/// event goes out as its frame, and a closed queue ends the loop.
pub fn next_write(queued: Option<&WebSocketMessage>) -> (step: OutboundStep)
    ensures
        match queued {
            Some(message) => step matches OutboundStep::Write(frame) && frame@ == event_frame(
                message@,
            ),
            None => step is Stop,
        },
{
    match queued {
        Some(message) => OutboundStep::Write(message.to_frame()),
        None => OutboundStep::Stop,
    }
}

/// Decides, after one write of the outbound loop, whether the loop goes on:
/// it does while the socket takes the frames.
pub fn after_write(written: bool) -> (control: LoopControl)
    ensures
        control == if written {
            LoopControl::Continue
        } else {
            LoopControl::Stop
        },
{
    if written {
        LoopControl::Continue
    } else {
        LoopControl::Stop
    }
}

} // verus!
