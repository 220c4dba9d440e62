//! The laws of the life of a connection: what holds of every run of events
//! through a session, and of the registry when the caller performs what the
//! session calls for.

use vstd::prelude::*;
use crate::message::WebSocketMessage;
use crate::registry::laws::{lemma_deregistered_well_formed, lemma_registered_well_formed};
use crate::registry::{
    absent, bucket_of, deregistered, holds, lemma_without_idempotent, position, registered,
    well_formed, WebSocketConnection,
};
use crate::session::{
    cleanup, offered_token, rejection, Action, ConnectionSession, SessionEvent, SessionPhase,
    SocketRead,
};

verus! {

impl ConnectionSession {
    /// The state after a run of events, and all the actions that the run
    /// called for, in order.
    pub open spec fn run(self, events: Seq<SessionEvent>) -> (ConnectionSession, Seq<Action>)
        decreases events.len(),
    {
        if events.len() == 0 {
            (self, Seq::empty())
        } else {
            let (before, done) = self.run(events.drop_last());
            let (after, more) = before.transition(events.last());
            (after, done + more)
        }
    }

    /// A run of one more event is the run so far, then the transition on
    /// that event.
    pub proof fn lemma_run_push(self, events: Seq<SessionEvent>, event: SessionEvent)
        ensures
            self.run(events.push(event)) == (
                self.run(events).0.transition(event).0,
                self.run(events).1 + self.run(events).0.transition(event).1,
            ),
    {
        assert(events.push(event).drop_last() =~= events);
    }

    /// A run in two parts is the run of the first part, then the run of the
    /// second from where the first ended.
    pub proof fn lemma_run_append(self, first: Seq<SessionEvent>, second: Seq<SessionEvent>)
        ensures
            self.run(first + second) == (
                self.run(first).0.run(second).0,
                self.run(first).1 + self.run(first).0.run(second).1,
            ),
        decreases second.len(),
    {
        let (middle, done) = self.run(first);
        if second.len() == 0 {
            assert(first + second =~= first);
            assert(done + Seq::<Action>::empty() =~= done);
        } else {
            let front = second.drop_last();
            self.lemma_run_append(first, front);
            assert((first + second).drop_last() =~= first + front);
            assert((first + second).last() == second.last());
            let (before, more) = middle.run(front);
            let (after, last) = before.transition(second.last());
            assert(done + (more + last) =~= (done + more) + last);
        }
    }

    /// A closed session stays closed and calls for nothing more, whatever
    /// comes.
    pub proof fn lemma_closed_is_final(self, events: Seq<SessionEvent>)
        requires
            self.phase == SessionPhase::Closed,
        ensures
            self.run(events) == (self, Seq::<Action>::empty()),
        decreases events.len(),
    {
        if events.len() > 0 {
            self.lemma_closed_is_final(events.drop_last());
            assert(Seq::<Action>::empty() + Seq::<Action>::empty() =~= Seq::<Action>::empty());
        }
    }
}

/// The registry after the caller has performed `action`; `tx` is the queue
/// with which it registers the connection.
pub open spec fn performed(
    buckets: Map<u128, Seq<WebSocketConnection>>,
    action: Action,
    tx: tokio::sync::mpsc::Sender<WebSocketMessage>,
) -> Map<u128, Seq<WebSocketConnection>> {
    match action {
        Action::Register { user_id, connection_id } => registered(
            buckets,
            user_id,
            WebSocketConnection { tx, connection_id },
        ),
        Action::Deregister { user_id, connection_id } => deregistered(
            buckets,
            user_id,
            connection_id,
        ),
        _ => buckets,
    }
}

/// The registry after the caller has performed `actions`, in order.
pub open spec fn performed_all(
    buckets: Map<u128, Seq<WebSocketConnection>>,
    actions: Seq<Action>,
    tx: tokio::sync::mpsc::Sender<WebSocketMessage>,
) -> Map<u128, Seq<WebSocketConnection>>
    decreases actions.len(),
{
    if actions.len() == 0 {
        buckets
    } else {
        performed(performed_all(buckets, actions.drop_last(), tx), actions.last(), tx)
    }
}

proof fn lemma_performed_push(
    buckets: Map<u128, Seq<WebSocketConnection>>,
    actions: Seq<Action>,
    action: Action,
    tx: tokio::sync::mpsc::Sender<WebSocketMessage>,
)
    ensures
        performed_all(buckets, actions.push(action), tx) == performed(
            performed_all(buckets, actions, tx),
            action,
            tx,
        ),
{
    assert(actions.push(action).drop_last() =~= actions);
}

proof fn lemma_performed_append(
    buckets: Map<u128, Seq<WebSocketConnection>>,
    first: Seq<Action>,
    second: Seq<Action>,
    tx: tokio::sync::mpsc::Sender<WebSocketMessage>,
)
    ensures
        performed_all(buckets, first + second, tx) == performed_all(
            performed_all(buckets, first, tx),
            second,
            tx,
        ),
    decreases second.len(),
{
    if second.len() == 0 {
        assert(first + second =~= first);
    } else {
        lemma_performed_append(buckets, first, second.drop_last(), tx);
        assert((first + second).drop_last() =~= first + second.drop_last());
        assert((first + second).last() == second.last());
    }
}

/// What the actions of one transition do to the registry: a registration
/// where the connection becomes registered, a deregistration where it ceases
/// to be, nothing otherwise. The user never changes in between.
proof fn lemma_transition_effect(
    session: ConnectionSession,
    event: SessionEvent,
    buckets: Map<u128, Seq<WebSocketConnection>>,
    tx: tokio::sync::mpsc::Sender<WebSocketMessage>,
)
    ensures
        session.transition(event).0.connection_id == session.connection_id,
        performed_all(buckets, session.transition(event).1, tx) == match (
            session.registered_user(),
            session.transition(event).0.registered_user(),
        ) {
            (None, Some(user_id)) => registered(
                buckets,
                user_id,
                WebSocketConnection { tx, connection_id: session.connection_id },
            ),
            (Some(user_id), None) => deregistered(buckets, user_id, session.connection_id),
            _ => buckets,
        },
        session.registered_user() is Some && session.transition(event).0.registered_user()
            is Some ==> session.registered_user() == session.transition(event).0.registered_user(),
{
    let actions = session.transition(event).1;
    let none = Seq::<Action>::empty();
    if actions.len() == 0 {
    } else if actions.len() == 1 {
        assert(actions =~= none.push(actions[0]));
        lemma_performed_push(buckets, none, actions[0], tx);
    } else if actions.len() == 2 {
        assert(actions =~= none.push(actions[0]).push(actions[1]));
        lemma_performed_push(buckets, none, actions[0], tx);
        lemma_performed_push(buckets, none.push(actions[0]), actions[1], tx);
    } else {
        assert(actions.len() == 3);
        assert(actions =~= none.push(actions[0]).push(actions[1]).push(actions[2]));
        lemma_performed_push(buckets, none, actions[0], tx);
        lemma_performed_push(buckets, none.push(actions[0]), actions[1], tx);
        lemma_performed_push(buckets, none.push(actions[0]).push(actions[1]), actions[2], tx);
    }
}

/// What turning a handshake down does to the registry: nothing.
proof fn lemma_rejection_effect(
    buckets: Map<u128, Seq<WebSocketConnection>>,
    first: Seq<Action>,
    tx: tokio::sync::mpsc::Sender<WebSocketMessage>,
)
    requires
        performed_all(buckets, first, tx) == buckets,
    ensures
        performed_all(buckets, first + rejection(), tx) == buckets,
{
    let none = Seq::<Action>::empty();
    lemma_performed_append(buckets, first, rejection(), tx);
    assert(rejection() =~= none.push(rejection()[0]).push(rejection()[1]));
    lemma_performed_push(buckets, none, rejection()[0], tx);
    lemma_performed_push(buckets, none.push(rejection()[0]), rejection()[1], tx);
}

/// Handshake rejection, first frame unreadable: where the first read carries
/// no token, the session calls for exactly one error frame and the closing of
/// the socket, and for nothing ever after; the registry stays as it is.
pub proof fn lemma_unreadable_handshake_rejected(
    connection_id: u128,
    read: SocketRead,
    later: Seq<SessionEvent>,
    buckets: Map<u128, Seq<WebSocketConnection>>,
    tx: tokio::sync::mpsc::Sender<WebSocketMessage>,
)
    requires
        offered_token(read) is None,
    ensures
        ConnectionSession::start(connection_id).run(seq![SessionEvent::FirstRead(read)] + later)
            == (
            ConnectionSession::start(connection_id).moved_to(SessionPhase::Closed),
            rejection(),
        ),
        performed_all(buckets, rejection(), tx) == buckets,
{
    let start = ConnectionSession::start(connection_id);
    let first = seq![SessionEvent::FirstRead(read)];
    let none = Seq::<Action>::empty();
    start.lemma_run_push(Seq::empty(), SessionEvent::FirstRead(read));
    assert(Seq::<SessionEvent>::empty().push(SessionEvent::FirstRead(read)) =~= first);
    assert(none + rejection() =~= rejection());
    start.lemma_run_append(first, later);
    start.moved_to(SessionPhase::Closed).lemma_closed_is_final(later);
    assert(rejection() + none =~= rejection());
    lemma_rejection_effect(buckets, none, tx);
}

/// Handshake rejection, no first frame in time: the same as for an unreadable
/// first frame.
pub proof fn lemma_late_handshake_rejected(
    connection_id: u128,
    later: Seq<SessionEvent>,
    buckets: Map<u128, Seq<WebSocketConnection>>,
    tx: tokio::sync::mpsc::Sender<WebSocketMessage>,
)
    ensures
        ConnectionSession::start(connection_id).run(seq![SessionEvent::HandshakeTimedOut] + later)
            == (
            ConnectionSession::start(connection_id).moved_to(SessionPhase::Closed),
            rejection(),
        ),
        performed_all(buckets, rejection(), tx) == buckets,
{
    let start = ConnectionSession::start(connection_id);
    let first = seq![SessionEvent::HandshakeTimedOut];
    let none = Seq::<Action>::empty();
    start.lemma_run_push(Seq::empty(), SessionEvent::HandshakeTimedOut);
    assert(Seq::<SessionEvent>::empty().push(SessionEvent::HandshakeTimedOut) =~= first);
    assert(none + rejection() =~= rejection());
    start.lemma_run_append(first, later);
    start.moved_to(SessionPhase::Closed).lemma_closed_is_final(later);
    assert(rejection() + none =~= rejection());
    lemma_rejection_effect(buckets, none, tx);
}

/// Handshake rejection, token turned down: where the first frame carries a
/// token and the verifier turns it down, the session hands the token to the
/// verifier, then calls for exactly one error frame and the closing of the
/// socket, and for nothing ever after; the registry stays as it is.
pub proof fn lemma_invalid_token_rejected(
    connection_id: u128,
    read: SocketRead,
    later: Seq<SessionEvent>,
    buckets: Map<u128, Seq<WebSocketConnection>>,
    tx: tokio::sync::mpsc::Sender<WebSocketMessage>,
)
    requires
        offered_token(read) is Some,
    ensures
        ConnectionSession::start(connection_id).run(
            seq![SessionEvent::FirstRead(read), SessionEvent::TokenChecked(None)] + later,
        ) == (
            ConnectionSession::start(connection_id).moved_to(SessionPhase::Closed),
            seq![Action::VerifyToken(offered_token(read)->0)] + rejection(),
        ),
        performed_all(
            buckets,
            seq![Action::VerifyToken(offered_token(read)->0)] + rejection(),
            tx,
        ) == buckets,
{
    let start = ConnectionSession::start(connection_id);
    let asked = seq![Action::VerifyToken(offered_token(read)->0)];
    let one = seq![SessionEvent::FirstRead(read)];
    let two = seq![SessionEvent::FirstRead(read), SessionEvent::TokenChecked(None)];
    let none = Seq::<Action>::empty();
    start.lemma_run_push(Seq::empty(), SessionEvent::FirstRead(read));
    assert(Seq::<SessionEvent>::empty().push(SessionEvent::FirstRead(read)) =~= one);
    assert(none + asked =~= asked);
    start.lemma_run_push(one, SessionEvent::TokenChecked(None));
    assert(one.push(SessionEvent::TokenChecked(None)) =~= two);
    start.lemma_run_append(two, later);
    start.moved_to(SessionPhase::Closed).lemma_closed_is_final(later);
    assert((asked + rejection()) + none =~= asked + rejection());
    assert(asked =~= none.push(asked[0]));
    lemma_performed_push(buckets, none, asked[0], tx);
    lemma_rejection_effect(buckets, asked, tx);
}

/// Whether the registry and the session agree on the connection: it stands
/// under the session's user where the session counts it as registered, and
/// nowhere where it does not.
pub open spec fn in_step(
    buckets: Map<u128, Seq<WebSocketConnection>>,
    session: ConnectionSession,
) -> bool {
    &&& well_formed(buckets)
    &&& match session.registered_user() {
        Some(user_id) => holds(bucket_of(buckets, user_id), session.connection_id),
        None => absent(buckets, session.connection_id),
    }
}

/// One step keeps registry and session in step: whatever the event, once the
/// caller has performed the actions that the transition calls for, the
/// connection stands in the registry if and only if the new state counts it
/// as registered.
pub proof fn lemma_step_keeps_in_step(
    session: ConnectionSession,
    event: SessionEvent,
    buckets: Map<u128, Seq<WebSocketConnection>>,
    tx: tokio::sync::mpsc::Sender<WebSocketMessage>,
)
    requires
        in_step(buckets, session),
    ensures
        in_step(
            performed_all(buckets, session.transition(event).1, tx),
            session.transition(event).0,
        ),
{
    let id = session.connection_id;
    let after = session.transition(event).0;
    let registry = performed_all(buckets, session.transition(event).1, tx);
    lemma_transition_effect(session, event, buckets, tx);
    match (session.registered_user(), after.registered_user()) {
        (None, Some(user_id)) => {
            let connection = WebSocketConnection { tx, connection_id: id };
            lemma_registered_well_formed(buckets, user_id, connection);
            let bucket = registry[user_id];
            assert(bucket[bucket.len() - 1] == connection);
        },
        (Some(user_id), None) => {
            lemma_deregistered_well_formed(buckets, user_id, id);
            lemma_without_idempotent(buckets[user_id], id);
            let w = position(buckets[user_id], id);
            assert forall|u: u128| registry.contains_key(u) implies !holds(
                #[trigger] registry[u],
                id,
            ) by {
                if u != user_id && holds(registry[u], id) {
                    let k = position(registry[u], id);
                    assert(buckets[u][k].connection_id == buckets[user_id][w].connection_id);
                }
            }
        },
        _ => {},
    }
}

/// The whole life of a connection: started on a registry that does not hold
/// it, and with the caller performing the actions of every transition, the
/// registry and the session stay in step through any run of events. So a
/// session that is closed has left no entry behind, and one that was turned
/// down never had one.
pub proof fn lemma_run_keeps_in_step(
    connection_id: u128,
    events: Seq<SessionEvent>,
    buckets: Map<u128, Seq<WebSocketConnection>>,
    tx: tokio::sync::mpsc::Sender<WebSocketMessage>,
)
    requires
        well_formed(buckets),
        absent(buckets, connection_id),
    ensures
        in_step(
            performed_all(buckets, ConnectionSession::start(connection_id).run(events).1, tx),
            ConnectionSession::start(connection_id).run(events).0,
        ),
    decreases events.len(),
{
    let start = ConnectionSession::start(connection_id);
    if events.len() > 0 {
        let (before, done) = start.run(events.drop_last());
        lemma_run_keeps_in_step(connection_id, events.drop_last(), buckets, tx);
        let middle = performed_all(buckets, done, tx);
        lemma_step_keeps_in_step(before, events.last(), middle, tx);
        lemma_performed_append(buckets, done, before.transition(events.last()).1, tx);
    }
}

/// Guaranteed cleanup: when either loop of an active session ends, for
/// whatever reason, that very step closes the session, cancels the other
/// loop and deregisters the connection; nothing is called for ever after, so
/// the connection is deregistered exactly once, and no user of the registry
/// holds it any more.
pub proof fn lemma_guaranteed_cleanup(
    session: ConnectionSession,
    event: SessionEvent,
    later: Seq<SessionEvent>,
    buckets: Map<u128, Seq<WebSocketConnection>>,
    tx: tokio::sync::mpsc::Sender<WebSocketMessage>,
)
    requires
        session.phase is Active,
        event is OutboundEnded || event is InboundEnded,
        in_step(buckets, session),
    ensures
        session.run(seq![event] + later) == (
            session.moved_to(SessionPhase::Closed),
            seq![
                if event is OutboundEnded {
                    Action::StopInbound
                } else {
                    Action::StopOutbound
                },
            ] + cleanup(session.phase->Active_user_id, session.connection_id),
        ),
        absent(
            performed_all(buckets, session.run(seq![event] + later).1, tx),
            session.connection_id,
        ),
{
    let one = seq![event];
    let actions = session.transition(event).1;
    session.lemma_run_push(Seq::empty(), event);
    assert(Seq::<SessionEvent>::empty().push(event) =~= one);
    assert(Seq::<Action>::empty() + actions =~= actions);
    session.lemma_run_append(one, later);
    session.moved_to(SessionPhase::Closed).lemma_closed_is_final(later);
    assert(actions + Seq::<Action>::empty() =~= actions);
    lemma_step_keeps_in_step(session, event, buckets, tx);
}

} // verus!
