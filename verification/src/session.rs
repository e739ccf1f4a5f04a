//! The WebSocket relay session: one client-facing socket paired with one
//! backend-facing socket, bridged until either side ends.
//!
//! The surrounding event loop owns the sockets and performs the reads,
//! writes and the backend dial; this state machine makes every decision.
//! The loop reports each observation as a [`SessionEvent`] and performs the
//! returned [`SessionAction`]. Ghost logs record every message handed to
//! each side, so the contracts pin down exactly what is relayed and in what
//! order.

use vstd::prelude::*;

use crate::message::{
    backend_to_client, client_to_backend, to_client_view, BackendMessage, ClientMessage,
    MessageView,
};

verus! {

/// The phases of a relay session: the backend dial is in flight, messages
/// are being relayed, or the session is over.
#[derive(Clone, Copy, Debug, PartialEq, Eq, Structural)]
pub enum SessionState {
    Handshaking,
    Bridging,
    Closed,
}

/// What the relay loop observed: the outcome of the backend dial, a message
/// read from either socket, a socket that ended (closed or errored), or a
/// write that failed.
#[derive(Debug, PartialEq)]
pub enum SessionEvent {
    BackendConnected,
    BackendDialFailed,
    FromClient(ClientMessage),
    FromBackend(BackendMessage),
    ClientGone,
    BackendGone,
    SendFailed,
}

/// What the relay loop must do next: keep waiting for events, write a
/// translated message to one side, or tear both halves down.
#[derive(Debug, PartialEq)]
pub enum SessionAction {
    Wait,
    SendToBackend(BackendMessage),
    SendToClient(ClientMessage),
    TearDown,
}

/// One relay session's state and its ghost relay logs.
pub struct WsSession {
    state: SessionState,
    to_backend: Ghost<Seq<MessageView>>,
    to_client: Ghost<Seq<MessageView>>,
}

impl WsSession {
    /// The session's phase.
    pub closed spec fn phase(self) -> SessionState {
        self.state
    }

    /// Every message handed to the backend socket so far, in order.
    pub closed spec fn backend_log(self) -> Seq<MessageView> {
        self.to_backend@
    }

    /// Every message handed to the client socket so far, in order.
    pub closed spec fn client_log(self) -> Seq<MessageView> {
        self.to_client@
    }

    /// Until the backend leg is connected, nothing has been relayed in
    /// either direction.
    pub open spec fn wf(self) -> bool {
        self.phase() == SessionState::Handshaking ==> self.backend_log()
            == Seq::<MessageView>::empty() && self.client_log() == Seq::<MessageView>::empty()
    }

    /// A fresh session: the client handshake has completed, the backend
    /// dial is in flight, nothing has been relayed.
    pub fn new() -> (s: WsSession)
        ensures
            s.phase() == SessionState::Handshaking,
            s.backend_log() == Seq::<MessageView>::empty(),
            s.client_log() == Seq::<MessageView>::empty(),
            s.wf(),
    {
        WsSession {
            state: SessionState::Handshaking,
            to_backend: Ghost(Seq::empty()),
            to_client: Ghost(Seq::empty()),
        }
    }

    /// Advances the session by one observation.
    ///
    /// While handshaking, the dial's outcome decides: success starts the
    /// relay; failure closes the session with both halves torn down and —
    /// as the logs say — not a single message ever relayed. While bridging,
    /// a message from either side is translated and sent to the other side,
    /// preserving kind, payload and per-direction order; the first error,
    /// close or failed write on either side tears the whole session down,
    /// so no half-open relay is left behind. A closed session stays closed
    /// and never sends again.
    pub fn step(&mut self, event: SessionEvent) -> (a: SessionAction)
        requires
            old(self).wf(),
        ensures
            final(self).wf(),
            old(self).phase() == SessionState::Handshaking ==> match event {
                SessionEvent::BackendConnected => {
                    &&& final(self).phase() == SessionState::Bridging
                    &&& final(self).backend_log() == old(self).backend_log()
                    &&& final(self).client_log() == old(self).client_log()
                    &&& a == SessionAction::Wait
                },
                SessionEvent::BackendDialFailed => {
                    &&& final(self).phase() == SessionState::Closed
                    &&& final(self).backend_log() == Seq::<MessageView>::empty()
                    &&& final(self).client_log() == Seq::<MessageView>::empty()
                    &&& a == SessionAction::TearDown
                },
                _ => *final(self) == *old(self) && a == SessionAction::Wait,
            },
            old(self).phase() == SessionState::Bridging ==> match event {
                SessionEvent::FromClient(m) => {
                    &&& final(self).phase() == SessionState::Bridging
                    &&& (a matches SessionAction::SendToBackend(t) && t@ == m@)
                    &&& final(self).backend_log() == old(self).backend_log().push(m@)
                    &&& final(self).client_log() == old(self).client_log()
                },
                SessionEvent::FromBackend(m) => {
                    &&& final(self).phase() == SessionState::Bridging
                    &&& (a matches SessionAction::SendToClient(t) && t@ == to_client_view(m@))
                    &&& final(self).client_log() == old(self).client_log().push(to_client_view(m@))
                    &&& final(self).backend_log() == old(self).backend_log()
                },
                SessionEvent::ClientGone | SessionEvent::BackendGone | SessionEvent::SendFailed => {
                    &&& final(self).phase() == SessionState::Closed
                    &&& final(self).backend_log() == old(self).backend_log()
                    &&& final(self).client_log() == old(self).client_log()
                    &&& a == SessionAction::TearDown
                },
                _ => *final(self) == *old(self) && a == SessionAction::Wait,
            },
            old(self).phase() == SessionState::Closed ==> *final(self) == *old(self) && a
                == SessionAction::Wait,
    {
        match self.state {
            SessionState::Handshaking => match event {
                SessionEvent::BackendConnected => {
                    self.state = SessionState::Bridging;
                    SessionAction::Wait
                },
                SessionEvent::BackendDialFailed => {
                    self.state = SessionState::Closed;
                    SessionAction::TearDown
                },
                _ => SessionAction::Wait,
            },
            SessionState::Bridging => match event {
                SessionEvent::FromClient(m) => {
                    let ghost mv = m@;
                    let t = client_to_backend(m);
                    self.to_backend = Ghost(self.to_backend@.push(mv));
                    SessionAction::SendToBackend(t)
                },
                SessionEvent::FromBackend(m) => {
                    let ghost mv = m@;
                    let t = backend_to_client(m);
                    self.to_client = Ghost(self.to_client@.push(to_client_view(mv)));
                    SessionAction::SendToClient(t)
                },
                SessionEvent::ClientGone | SessionEvent::BackendGone | SessionEvent::SendFailed => {
                    self.state = SessionState::Closed;
                    SessionAction::TearDown
                },
                _ => SessionAction::Wait,
            },
            SessionState::Closed => SessionAction::Wait,
        }
    }
}

} // verus!
