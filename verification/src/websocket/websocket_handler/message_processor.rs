pub mod send_request;

use crate::standby::{delivery_fits, Delivery, Standby};
use crate::websocket::messages::{MessageType, MessageView, WebSocketMessage};
use std::ops::ControlFlow;
use vstd::prelude::*;

verus! {

/// A frame received on a websocket, with a text frame already read as a message.
#[derive(Debug)]
pub enum IncomingFrame {
    /// A text frame that holds a message.
    Message(WebSocketMessage),
    /// A text frame that holds no readable message.
    Unreadable,
    /// The peer closes the connection.
    Close,
    Ping,
    Pong,
    /// Any other frame.
    Other,
}

/// The standby's record of handed messages grows by exactly the message `m`.
pub open spec fn hands_over(before: Seq<MessageView>, after: Seq<MessageView>, m: MessageView) -> bool {
    after == before.push(m)
}

/// A message frame reaches the standby as it arrived: after routing, the last message
/// the standby was handed carries the frame's id, type and payload, and nothing else was
/// handed over.
pub proof fn lemma_routed_message_is_the_frame(
    before: Seq<MessageView>,
    after: Seq<MessageView>,
    m: MessageView,
)
    requires
        hands_over(before, after, m),
    ensures
        after.len() == before.len() + 1,
        after.last().message_id == m.message_id,
        after.last().message_type == m.message_type,
        after.last().payload == m.payload,
        after.subrange(0, before.len() as int) == before,
{
    assert(after.subrange(0, before.len() as int) =~= before);
}

/// Handles one frame from a peer: responses and keepalive answers are handed to whoever
/// waits for them; a close ends the connection's receive loop; everything else is passed
/// over. The second result says what became of a handed-over message.
pub fn process_message(frame: IncomingFrame, standby: &mut Standby) -> (r: (
    ControlFlow<(), ()>,
    Option<Delivery>,
))
    ensures
        match frame {
            IncomingFrame::Message(m) => {
                &&& r.0 == ControlFlow::<(), ()>::Continue(())
                &&& m.message_type == MessageType::Init ==> {
                    &&& final(standby)@ == old(standby)@
                    &&& final(standby).handed() == old(standby).handed()
                    &&& r.1 is None
                }
                &&& m.message_type != MessageType::Init ==> {
                    &&& final(standby)@ == old(standby)@.remove(m.message_id@)
                    &&& hands_over(old(standby).handed(), final(standby).handed(), m@)
                    &&& r.1 matches Some(d) && delivery_fits(old(standby)@, m.message_id@, d)
                }
            },
            IncomingFrame::Close => {
                &&& r.0 == ControlFlow::<(), ()>::Break(())
                &&& final(standby)@ == old(standby)@
                &&& final(standby).handed() == old(standby).handed()
                &&& r.1 is None
            },
            _ => {
                &&& r.0 == ControlFlow::<(), ()>::Continue(())
                &&& final(standby)@ == old(standby)@
                &&& final(standby).handed() == old(standby).handed()
                &&& r.1 is None
            },
        },
{
    match frame {
        IncomingFrame::Message(message) => match message.message_type {
            MessageType::Init => (ControlFlow::Continue(()), None),
            MessageType::Response => {
                let d = standby.process_message(message);
                (ControlFlow::Continue(()), Some(d))
            },
            MessageType::KeepAlive => {
                let d = standby.process_message(message);
                (ControlFlow::Continue(()), Some(d))
            },
        },
        IncomingFrame::Close => (ControlFlow::Break(()), None),
        _ => (ControlFlow::Continue(()), None),
    }
}

} // verus!
