//! The text frames of the streaming endpoint: the handshake frame that a
//! client sends first, the two acknowledgements, and the event frame.

use vstd::prelude::*;
use vstd::string::*;
use crate::identity::{format_id, id_text};
use crate::json::{json_string_literal, json_string_member, quote, string_member, text_view};
use crate::message::{ChangeEvent, WebSocketMessage};

verus! {

/// What the client is told when its handshake is turned down.
pub const AUTH_FAILED_MESSAGE: &'static str = "Authentication failed";

/// The token that a handshake frame carries: the string member `token` of the
/// JSON object in `text`, if there is one.
pub open spec fn handshake_token(text: Seq<char>) -> Option<Seq<char>> {
    json_string_member(text, "token"@)
}

/// Reads the token out of the first frame of a connection. `None` where the
/// frame is no JSON object with a string member `token`.
pub fn read_handshake_token(text: &str) -> (token: Option<String>)
    ensures
        text_view(token) == handshake_token(text@),
{
    string_member(text, "token")
}

/// An optional identity as it stands in a frame: the identity as a JSON
/// string, or `null` where there is none.
pub open spec fn optional_id_literal(id: Option<u128>) -> Seq<char> {
    match id {
        Some(id) => json_string_literal(id_text(id)),
        None => "null"@,
    }
}

/// The snapshot as it stands in a frame: the JSON text itself, or `null`.
pub open spec fn optional_payload(data: Option<Seq<char>>) -> Seq<char> {
    match data {
        Some(text) => text,
        None => "null"@,
    }
}

/// The acknowledgement of a successful handshake, from its two members
/// already written as JSON.
pub open spec fn auth_success_text(user_id: Seq<char>, connection_id: Seq<char>) -> Seq<char> {
    "{\"type\":\"auth_success\",\"user_id\":"@ + user_id + ",\"connection_id\":"@ + connection_id
        + "}"@
}

/// The frame that turns a handshake down, from its message already written
/// as JSON.
pub open spec fn auth_error_text(message: Seq<char>) -> Seq<char> {
    "{\"type\":\"auth_error\",\"message\":"@ + message + "}"@
}

/// The event frame, from its five members already written as JSON.
pub open spec fn event_text(
    event_type: Seq<char>,
    table: Seq<char>,
    user_id: Seq<char>,
    record_id: Seq<char>,
    data: Seq<char>,
) -> Seq<char> {
    "{\"event_type\":"@ + event_type + ",\"table\":"@ + table + ",\"user_id\":"@ + user_id
        + ",\"record_id\":"@ + record_id + ",\"data\":"@ + data + "}"@
}

/// The acknowledgement that tells a client who it is and which connection it
/// holds.
pub open spec fn auth_success_frame(user_id: u128, connection_id: u128) -> Seq<char> {
    auth_success_text(
        json_string_literal(id_text(user_id)),
        json_string_literal(id_text(connection_id)),
    )
}

/// The frame that tells a client that its handshake was turned down.
pub open spec fn auth_error_frame(message: Seq<char>) -> Seq<char> {
    auth_error_text(json_string_literal(message))
}

/// The frame that carries a change event.
pub open spec fn event_frame(event: ChangeEvent) -> Seq<char> {
    event_text(
        json_string_literal(event.event_type.wire_name()),
        json_string_literal(event.table),
        json_string_literal(id_text(event.user_id)),
        optional_id_literal(event.record_id),
        optional_payload(event.data),
    )
}

/// Puts the acknowledgement of a successful handshake together from its
/// members, each already written as JSON.
pub fn assemble_auth_success(user_id: &str, connection_id: &str) -> (frame: String)
    ensures
        frame@ == auth_success_text(user_id@, connection_id@),
{
    let mut frame = String::from_str("{\"type\":\"auth_success\",\"user_id\":");
    frame.append(user_id);
    frame.append(",\"connection_id\":");
    frame.append(connection_id);
    frame.append("}");
    frame
}

/// Puts the rejection frame together from its message, already written as
/// JSON.
pub fn assemble_auth_error(message: &str) -> (frame: String)
    ensures
        frame@ == auth_error_text(message@),
{
    let mut frame = String::from_str("{\"type\":\"auth_error\",\"message\":");
    frame.append(message);
    frame.append("}");
    frame
}

/// Puts the event frame together from its members, each already written as
/// JSON.
pub fn assemble_event(
    event_type: &str,
    table: &str,
    user_id: &str,
    record_id: &str,
    data: &str,
) -> (frame: String)
    ensures
        frame@ == event_text(event_type@, table@, user_id@, record_id@, data@),
{
    let mut frame = String::from_str("{\"event_type\":");
    frame.append(event_type);
    frame.append(",\"table\":");
    frame.append(table);
    frame.append(",\"user_id\":");
    frame.append(user_id);
    frame.append(",\"record_id\":");
    frame.append(record_id);
    frame.append(",\"data\":");
    frame.append(data);
    frame.append("}");
    frame
}

/// Writes an identity as a JSON string.
fn id_literal(id: u128) -> (literal: String)
    ensures
        literal@ == json_string_literal(id_text(id)),
{
    let text = format_id(id);
    quote(text.as_str())
}

/// Writes the acknowledgement of a successful handshake.
pub fn write_auth_success(user_id: u128, connection_id: u128) -> (frame: String)
    ensures
        frame@ == auth_success_frame(user_id, connection_id),
{
    let user = id_literal(user_id);
    let connection = id_literal(connection_id);
    assemble_auth_success(user.as_str(), connection.as_str())
}

/// Writes the frame that turns a handshake down with `message`.
pub fn write_auth_error(message: &str) -> (frame: String)
    ensures
        frame@ == auth_error_frame(message@),
{
    let literal = quote(message);
    assemble_auth_error(literal.as_str())
}

impl WebSocketMessage {
    /// Writes the event as the frame that goes out to a client.
    pub fn to_frame(&self) -> (frame: String)
        ensures
            frame@ == event_frame(self@),
    {
        let event_type = quote(self.event_type.as_str());
        let table = quote(self.table.as_str());
        let user = id_literal(self.user_id);
        let record = match self.record_id {
            Some(id) => id_literal(id),
            None => String::from_str("null"),
        };
        let data = match &self.data {
            Some(text) => text.clone(),
            None => String::from_str("null"),
        };
        assemble_event(
            event_type.as_str(),
            table.as_str(),
            user.as_str(),
            record.as_str(),
            data.as_str(),
        )
    }
}

} // verus!
