//! The change event: the unit that is fanned out to a user's connections.

use vstd::prelude::*;
use vstd::string::*;

verus! {

/// The kind of mutation that a change event reports.
#[derive(Clone, Copy, Debug, PartialEq, Eq, Structural)]
pub enum EventType {
    Insert,
    Update,
    Delete,
}

impl EventType {
    /// The name of the kind on the wire.
    pub open spec fn wire_name(self) -> Seq<char> {
        match self {
            EventType::Insert => "INSERT"@,
            EventType::Update => "UPDATE"@,
            EventType::Delete => "DELETE"@,
        }
    }

    /// The name of the kind on the wire.
    pub fn as_str(&self) -> (name: &'static str)
        ensures
            name@ == self.wire_name(),
    {
        match self {
            EventType::Insert => "INSERT",
            EventType::Update => "UPDATE",
            EventType::Delete => "DELETE",
        }
    }
}

/// What a change event says: the mathematical value of a `WebSocketMessage`.
pub struct ChangeEvent {
    pub event_type: EventType,
    pub table: Seq<char>,
    pub user_id: u128,
    pub record_id: Option<u128>,
    pub data: Option<Seq<char>>,
}

/// One committed mutation, as it is announced to the other devices of the
/// user who made it. `data` is the snapshot of the record as JSON text; the
/// library passes it on unread.
#[derive(Debug)]
pub struct WebSocketMessage {
    pub event_type: EventType,
    pub table: String,
    pub user_id: u128,
    pub record_id: Option<u128>,
    pub data: Option<String>,
}

impl View for WebSocketMessage {
    type V = ChangeEvent;

    open spec fn view(&self) -> ChangeEvent {
        ChangeEvent {
            event_type: self.event_type,
            table: self.table@,
            user_id: self.user_id,
            record_id: self.record_id,
            data: match self.data {
                Some(text) => Some(text@),
                None => None,
            },
        }
    }
}

impl Clone for WebSocketMessage {
    fn clone(&self) -> (copy: Self)
        ensures
            copy == *self,
    {
        WebSocketMessage {
            event_type: self.event_type,
            table: self.table.clone(),
            user_id: self.user_id,
            record_id: self.record_id,
            data: match &self.data {
                Some(text) => Some(text.clone()),
                None => None,
            },
        }
    }
}

impl WebSocketMessage {
    /// The event that reports a mutation of kind `event_type` on record
    /// `record_id` of `table`, made by `user_id`.
    pub fn new(
        event_type: EventType,
        table: &str,
        user_id: u128,
        record_id: Option<u128>,
        data: Option<String>,
    ) -> (message: Self)
        ensures
            message@ == (ChangeEvent {
                event_type,
                table: table@,
                user_id,
                record_id,
                data: match data {
                    Some(text) => Some(text@),
                    None => None,
                },
            }),
            message.data == data,
    {
        WebSocketMessage { event_type, table: String::from_str(table), user_id, record_id, data }
    }
}

} // verus!
