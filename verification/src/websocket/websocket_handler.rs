pub mod message_processor;
pub mod messages;

use crate::commands::RejectStatus;
use crate::ids::{is_message_id, new_message_id};
use crate::permissions::{known_bits, Permissions};
use crate::websocket::messages::{MessageType, WebSocketMessage, WebSocketMessagePayload};
use vstd::prelude::*;

verus! {

/// Admits a websocket from the permission bits stored for its API key: a failed lookup
/// is a server error; unknown bits are dropped.
pub fn admit_websocket<E>(stored_permissions: Result<u64, E>) -> (r: Result<
    Permissions,
    RejectStatus,
>)
    ensures
        match stored_permissions {
            Ok(bits) => r matches Ok(p) && p@ == bits & known_bits(),
            Err(_) => r == Err::<Permissions, RejectStatus>(RejectStatus::InternalServerError),
        },
{
    match stored_permissions {
        Ok(bits) => Ok(Permissions::from_bits_truncate(bits)),
        Err(_) => Err(RejectStatus::InternalServerError),
    }
}

/// The payload of the ping that greets a new connection.
pub fn greeting_ping() -> (p: Vec<u8>)
    ensures
        p@ == seq![4u8, 2u8, 0u8],
{
    vec![4u8, 2u8, 0u8]
}

/// A keepalive: a fresh `KeepAlive` message with an empty payload.
pub fn keepalive_message() -> (m: WebSocketMessage)
    ensures
        is_message_id(m.message_id@),
        m.message_type == MessageType::KeepAlive,
        m.payload@ == WebSocketMessagePayload::Empty@,
{
    WebSocketMessage {
        message_id: new_message_id(),
        message_type: MessageType::KeepAlive,
        payload: WebSocketMessagePayload::Empty,
    }
}

/// What happened to the keepalive of a connection.
#[derive(Clone, Copy, Debug, PartialEq, Eq, Structural)]
pub enum KeepaliveEvent {
    /// The keepalive was sent.
    Sent,
    /// The keepalive could not be sent: the peer is gone.
    SendFailed,
    /// The peer answered the keepalive.
    Answered,
    /// The peer did not answer in time.
    TimedOut,
    /// The pause after an answer is over.
    Rested,
}

/// What the keepalive of a connection does next.
#[derive(Debug)]
pub enum KeepaliveAction {
    /// Send this keepalive and register a waiter for its id.
    Send(WebSocketMessage),
    /// Wait this many seconds for the answer.
    AwaitAnswer { timeout_secs: u64 },
    /// Pause this many seconds before the next keepalive.
    Pause { secs: u64 },
    /// Close the connection with this code and reason, and stop.
    CloseAndStop { code: u16, reason: String },
    /// Stop without closing.
    Stop,
}

/// The keepalive's next move after `event`: a sent keepalive waits 5 seconds for its
/// answer; an answer is followed by a pause of 3 seconds and then the next keepalive; a
/// missed answer closes the connection with code 400; a failed send stops.
pub fn keepalive_step(event: KeepaliveEvent) -> (a: KeepaliveAction)
    ensures
        event == KeepaliveEvent::Sent ==> a == (KeepaliveAction::AwaitAnswer { timeout_secs: 5 }),
        event == KeepaliveEvent::SendFailed ==> a is Stop,
        event == KeepaliveEvent::Answered ==> a == (KeepaliveAction::Pause { secs: 3 }),
        event == KeepaliveEvent::TimedOut ==> (a matches KeepaliveAction::CloseAndStop {
            code,
            reason,
        } && code == 400 && reason@ == "Keepalive response not received"@),
        event == KeepaliveEvent::Rested ==> (a matches KeepaliveAction::Send(m) && is_message_id(
            m.message_id@,
        ) && m.message_type == MessageType::KeepAlive && m.payload@
            == WebSocketMessagePayload::Empty@),
{
    match event {
        KeepaliveEvent::Sent => KeepaliveAction::AwaitAnswer { timeout_secs: 5 },
        KeepaliveEvent::SendFailed => KeepaliveAction::Stop,
        KeepaliveEvent::Answered => KeepaliveAction::Pause { secs: 3 },
        KeepaliveEvent::TimedOut => KeepaliveAction::CloseAndStop {
            code: 400,
            reason: String::from_str("Keepalive response not received"),
        },
        KeepaliveEvent::Rested => KeepaliveAction::Send(keepalive_message()),
    }
}

} // verus!
