pub mod incoming;

use vstd::prelude::*;

verus! {

/// A message of the handler's own protocol.
#[derive(Debug)]
pub struct WebSocketMessage {
    pub message_id: String,
    pub payload: WebSocketMessagePayload,
}

/// The body of a message of the handler's own protocol.
#[derive(Clone, Copy, Debug, PartialEq, Eq, Structural)]
pub enum WebSocketMessagePayload {
    GenericOk,
}

} // verus!
