//! The WebSocket message model shared by both legs of a relay session.
//!
//! The client-facing and backend-facing sockets speak two different message
//! representations; the bridge translates between them. Both are modelled
//! here by one closed set of kinds — text, binary, ping, pong, close — plus,
//! on the backend leg only, a raw protocol frame that carries no semantic
//! message and is relayed as an empty binary message to keep the loop live.

use vstd::prelude::*;

verus! {

/// A close frame's code and reason text.
#[derive(Clone, Debug, PartialEq)]
pub struct CloseInfo {
    pub code: u16,
    pub reason: String,
}

/// A message on the client-facing socket.
#[derive(Clone, Debug, PartialEq)]
pub enum ClientMessage {
    Text(String),
    Binary(Vec<u8>),
    Ping(Vec<u8>),
    Pong(Vec<u8>),
    Close(Option<CloseInfo>),
}

/// A message on the backend-facing socket. Besides the five semantic kinds
/// it can surface a raw low-level frame.
#[derive(Clone, Debug, PartialEq)]
pub enum BackendMessage {
    Text(String),
    Binary(Vec<u8>),
    Ping(Vec<u8>),
    Pong(Vec<u8>),
    Close(Option<CloseInfo>),
    Frame,
}

/// The mathematical shape of a message: its kind and payload.
pub enum MessageView {
    Text(Seq<char>),
    Binary(Seq<u8>),
    Ping(Seq<u8>),
    Pong(Seq<u8>),
    Close(Option<(u16, Seq<char>)>),
    Frame,
}

/// The shape of a close payload.
pub open spec fn close_view(c: Option<CloseInfo>) -> Option<(u16, Seq<char>)> {
    match c {
        Some(ci) => Some((ci.code, ci.reason@)),
        None => None,
    }
}

impl View for ClientMessage {
    type V = MessageView;

    open spec fn view(&self) -> MessageView {
        match self {
            ClientMessage::Text(t) => MessageView::Text(t@),
            ClientMessage::Binary(b) => MessageView::Binary(b@),
            ClientMessage::Ping(p) => MessageView::Ping(p@),
            ClientMessage::Pong(p) => MessageView::Pong(p@),
            ClientMessage::Close(c) => MessageView::Close(close_view(*c)),
        }
    }
}

impl View for BackendMessage {
    type V = MessageView;

    open spec fn view(&self) -> MessageView {
        match self {
            BackendMessage::Text(t) => MessageView::Text(t@),
            BackendMessage::Binary(b) => MessageView::Binary(b@),
            BackendMessage::Ping(p) => MessageView::Ping(p@),
            BackendMessage::Pong(p) => MessageView::Pong(p@),
            BackendMessage::Close(c) => MessageView::Close(close_view(*c)),
            BackendMessage::Frame => MessageView::Frame,
        }
    }
}

/// What the client socket sees of a backend message: the same kind and
/// payload, except that a raw frame surfaces as an empty binary message.
pub open spec fn to_client_view(m: MessageView) -> MessageView {
    match m {
        MessageView::Frame => MessageView::Binary(Seq::empty()),
        _ => m,
    }
}

/// Translates a client message for the backend socket. Kind and payload are
/// preserved exactly; a close frame keeps its code and reason.
pub fn client_to_backend(m: ClientMessage) -> (r: BackendMessage)
    ensures
        r@ == m@,
{
    match m {
        ClientMessage::Text(t) => BackendMessage::Text(t),
        ClientMessage::Binary(b) => BackendMessage::Binary(b),
        ClientMessage::Ping(p) => BackendMessage::Ping(p),
        ClientMessage::Pong(p) => BackendMessage::Pong(p),
        ClientMessage::Close(c) => BackendMessage::Close(c),
    }
}

/// Translates a backend message for the client socket. Kind and payload are
/// preserved exactly; a raw frame becomes an empty binary message rather
/// than being dropped, preserving the liveness of the relay loop.
pub fn backend_to_client(m: BackendMessage) -> (r: ClientMessage)
    ensures
        r@ == to_client_view(m@),
{
    match m {
        BackendMessage::Text(t) => ClientMessage::Text(t),
        BackendMessage::Binary(b) => ClientMessage::Binary(b),
        BackendMessage::Ping(p) => ClientMessage::Ping(p),
        BackendMessage::Pong(p) => ClientMessage::Pong(p),
        BackendMessage::Close(c) => ClientMessage::Close(c),
        BackendMessage::Frame => ClientMessage::Binary(Vec::new()),
    }
}

/// Round trip: a client message translated for the backend and translated
/// back keeps its kind and payload unchanged — composing `client_to_backend`
/// and `backend_to_client` returns a message with the original's view.
pub proof fn lemma_client_message_round_trip(m: ClientMessage)
    ensures
        to_client_view(m@) == m@,
{
}

/// Round trip in the other direction: every backend message that carries a
/// semantic kind (every kind but a raw frame) survives translation to the
/// client representation and back unchanged.
pub proof fn lemma_backend_message_round_trip(m: BackendMessage)
    requires
        !(m@ is Frame),
    ensures
        to_client_view(m@) == m@,
{
}

} // verus!
