use crate::ids::{is_message_id, new_message_id};
use crate::websocket::messages::{MessageType, WebSocketMessage, WebSocketMessagePayload};
use crate::websocket::{is_first_send_target, send_target, can_handle_send_request, WebsocketConnection};
use tokio::sync::oneshot::error::RecvError;
use vstd::prelude::*;

verus! {

/// `Display` of `oneshot::error::RecvError`: the text `channel closed`.
#[verifier::external_body]
fn recv_error_text(e: &RecvError) -> (s: String)
    ensures
        s@ == "channel closed"@,
{
    e.to_string()
}

/// Picks the connection that a send request is forwarded to (the first one that holds
/// `READ_SEND` and identifies as the proxy) and the message it is forwarded in: a fresh
/// `Init` message with the request's payload. Without such a connection the request
/// fails with `No eligable way to handle send request`.
pub fn process_send_request<H>(
    send_request: WebSocketMessage,
    connections: &Vec<WebsocketConnection<H>>,
) -> (r: Result<(usize, WebSocketMessage), String>)
    ensures
        match r {
            Ok((i, m)) => {
                &&& is_first_send_target(connections@, i as int)
                &&& is_message_id(m.message_id@)
                &&& m.message_type == MessageType::Init
                &&& m.payload == send_request.payload
            },
            Err(e) => {
                &&& e@ == "No eligable way to handle send request"@
                &&& forall|j: int|
                    0 <= j < connections@.len() ==> !can_handle_send_request(
                        #[trigger] connections@[j],
                    )
            },
        },
{
    match send_target(connections) {
        Some(i) => {
            let message = WebSocketMessage {
                message_id: new_message_id(),
                message_type: MessageType::Init,
                payload: send_request.payload,
            };
            Ok((i, message))
        },
        None => Err(String::from_str("No eligable way to handle send request")),
    }
}

/// The outcome of a forwarded send request from the peer's response: `GenericOk` is
/// success, `GenericError` fails with its message, any other payload fails with
/// `Unexpected payload`; a response that never comes fails with `channel closed`.
pub fn send_request_reply(response: Result<WebSocketMessage, RecvError>) -> (r: Result<(), String>)
    ensures
        match response {
            Err(_) => r matches Err(m) && m@ == "channel closed"@,
            Ok(m) => match m.payload {
                WebSocketMessagePayload::GenericOk => r is Ok,
                WebSocketMessagePayload::GenericError(e) => r matches Err(t) && t == e.message,
                _ => r matches Err(t) && t@ == "Unexpected payload"@,
            },
        },
{
    match response {
        Err(e) => Err(recv_error_text(&e)),
        Ok(m) => match m.payload {
            WebSocketMessagePayload::GenericOk => Ok(()),
            WebSocketMessagePayload::GenericError(err) => Err(err.message),
            _ => Err(String::from_str("Unexpected payload")),
        },
    }
}

} // verus!
