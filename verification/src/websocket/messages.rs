pub mod common;
pub mod message_impl;

pub use message_impl::{GenericError, RegisterServerRequest, SendRequest};

use message_impl::{RegisterServerRequestView, SendRequestView};
use vstd::prelude::*;

verus! {

/// What a message on the websocket is for.
#[derive(Clone, Copy, Debug, PartialEq, Eq, Structural)]
pub enum MessageType {
    Init,
    KeepAlive,
    Response,
}

/// The body of a websocket message.
#[derive(Debug)]
pub enum WebSocketMessagePayload {
    GenericOk,
    GenericError(GenericError),
    Empty,
    SendRequest(SendRequest),
    RegisterServerRequest(RegisterServerRequest),
}

/// A message exchanged with a connected server over the websocket.
#[derive(Debug)]
pub struct WebSocketMessage {
    pub message_id: String,
    pub message_type: MessageType,
    pub payload: WebSocketMessagePayload,
}

/// A payload as a mathematical value.
pub enum PayloadView {
    GenericOk,
    GenericError(Seq<char>),
    Empty,
    SendRequest(SendRequestView),
    RegisterServerRequest(RegisterServerRequestView),
}

/// A message as a mathematical value.
pub struct MessageView {
    pub message_id: Seq<char>,
    pub message_type: MessageType,
    pub payload: PayloadView,
}

impl View for WebSocketMessagePayload {
    type V = PayloadView;

    open spec fn view(&self) -> PayloadView {
        match self {
            WebSocketMessagePayload::GenericOk => PayloadView::GenericOk,
            WebSocketMessagePayload::GenericError(e) => PayloadView::GenericError(e@),
            WebSocketMessagePayload::Empty => PayloadView::Empty,
            WebSocketMessagePayload::SendRequest(r) => PayloadView::SendRequest(r@),
            WebSocketMessagePayload::RegisterServerRequest(r) => PayloadView::RegisterServerRequest(
                r@,
            ),
        }
    }
}

impl View for WebSocketMessage {
    type V = MessageView;

    open spec fn view(&self) -> MessageView {
        MessageView {
            message_id: self.message_id@,
            message_type: self.message_type,
            payload: self.payload@,
        }
    }
}

impl Clone for WebSocketMessagePayload {
    fn clone(&self) -> (r: Self)
        ensures
            r@ == self@,
    {
        match self {
            WebSocketMessagePayload::GenericOk => WebSocketMessagePayload::GenericOk,
            WebSocketMessagePayload::GenericError(e) => WebSocketMessagePayload::GenericError(
                e.clone(),
            ),
            WebSocketMessagePayload::Empty => WebSocketMessagePayload::Empty,
            WebSocketMessagePayload::SendRequest(r) => WebSocketMessagePayload::SendRequest(
                r.clone(),
            ),
            WebSocketMessagePayload::RegisterServerRequest(r) => {
                WebSocketMessagePayload::RegisterServerRequest(r.clone())
            },
        }
    }
}

impl Clone for WebSocketMessage {
    fn clone(&self) -> (r: Self)
        ensures
            r@ == self@,
    {
        WebSocketMessage {
            message_id: self.message_id.clone(),
            message_type: self.message_type,
            payload: self.payload.clone(),
        }
    }
}

} // verus!
