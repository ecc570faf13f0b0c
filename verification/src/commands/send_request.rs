use crate::commands::broadcast_messages;
use crate::ids::is_message_id;
use crate::websocket::messages::{MessageType, SendRequest, WebSocketMessage, WebSocketMessagePayload};
use vstd::prelude::*;

verus! {

/// The messages that hand a send request to every connected server: one fresh `Init`
/// message per connection, each carrying the request.
pub fn send_request(connection_count: usize, body: &SendRequest) -> (r: Vec<WebSocketMessage>)
    ensures
        r@.len() == connection_count,
        forall|i: int|
            0 <= i < r@.len() ==> {
                &&& is_message_id((#[trigger] r@[i]).message_id@)
                &&& r@[i].message_type == MessageType::Init
                &&& r@[i].payload@ == WebSocketMessagePayload::SendRequest(*body)@
            },
{
    let payload = WebSocketMessagePayload::SendRequest(body.clone());
    broadcast_messages(connection_count, &payload)
}

} // verus!
