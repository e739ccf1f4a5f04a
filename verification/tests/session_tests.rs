use manatan_proxy::message::{
    backend_to_client, client_to_backend, BackendMessage, ClientMessage, CloseInfo,
};
use manatan_proxy::session::{SessionAction, SessionEvent, WsSession};

#[test]
fn client_messages_reach_the_backend_unchanged() {
    assert_eq!(
        client_to_backend(ClientMessage::Text("ping".to_string())),
        BackendMessage::Text("ping".to_string())
    );
    assert_eq!(
        client_to_backend(ClientMessage::Binary(vec![1, 2, 3])),
        BackendMessage::Binary(vec![1, 2, 3])
    );
    assert_eq!(client_to_backend(ClientMessage::Ping(vec![9])), BackendMessage::Ping(vec![9]));
    assert_eq!(client_to_backend(ClientMessage::Pong(vec![])), BackendMessage::Pong(vec![]));
}

#[test]
fn backend_messages_reach_the_client_unchanged() {
    assert_eq!(
        backend_to_client(BackendMessage::Text("pong".to_string())),
        ClientMessage::Text("pong".to_string())
    );
    assert_eq!(
        backend_to_client(BackendMessage::Binary(vec![4, 5])),
        ClientMessage::Binary(vec![4, 5])
    );
}

#[test]
fn close_code_and_reason_survive_the_round_trip() {
    let close = ClientMessage::Close(Some(CloseInfo { code: 1000, reason: "done".to_string() }));
    let relayed = client_to_backend(close);
    assert_eq!(
        relayed,
        BackendMessage::Close(Some(CloseInfo { code: 1000, reason: "done".to_string() }))
    );
    let back = backend_to_client(relayed);
    assert_eq!(
        back,
        ClientMessage::Close(Some(CloseInfo { code: 1000, reason: "done".to_string() }))
    );
    assert_eq!(
        backend_to_client(BackendMessage::Close(None)),
        ClientMessage::Close(None)
    );
}

#[test]
fn every_kind_round_trips_through_both_translations() {
    let messages = vec![
        ClientMessage::Text("hello".to_string()),
        ClientMessage::Binary(vec![0, 255]),
        ClientMessage::Ping(vec![1]),
        ClientMessage::Pong(vec![2]),
        ClientMessage::Close(Some(CloseInfo { code: 1001, reason: "away".to_string() })),
        ClientMessage::Close(None),
    ];
    for m in messages {
        let expected = match &m {
            ClientMessage::Text(t) => ClientMessage::Text(t.clone()),
            ClientMessage::Binary(b) => ClientMessage::Binary(b.clone()),
            ClientMessage::Ping(p) => ClientMessage::Ping(p.clone()),
            ClientMessage::Pong(p) => ClientMessage::Pong(p.clone()),
            ClientMessage::Close(c) => ClientMessage::Close(c.clone()),
        };
        assert_eq!(backend_to_client(client_to_backend(m)), expected);
    }
}

#[test]
fn raw_frames_become_empty_binary_messages() {
    assert_eq!(backend_to_client(BackendMessage::Frame), ClientMessage::Binary(Vec::new()));
}

#[test]
fn failed_dial_closes_the_session_before_any_relay() {
    let mut session = WsSession::new();
    let action = session.step(SessionEvent::BackendDialFailed);
    assert_eq!(action, SessionAction::TearDown);
    // Closed: later observations neither relay nor send anything.
    let action = session.step(SessionEvent::FromClient(ClientMessage::Text("late".to_string())));
    assert_eq!(action, SessionAction::Wait);
}

#[test]
fn bridging_relays_in_both_directions() {
    let mut session = WsSession::new();
    assert_eq!(session.step(SessionEvent::BackendConnected), SessionAction::Wait);
    let action = session.step(SessionEvent::FromClient(ClientMessage::Text("ping".to_string())));
    assert_eq!(action, SessionAction::SendToBackend(BackendMessage::Text("ping".to_string())));
    let action = session.step(SessionEvent::FromBackend(BackendMessage::Text("pong".to_string())));
    assert_eq!(action, SessionAction::SendToClient(ClientMessage::Text("pong".to_string())));
}

#[test]
fn backend_loss_mid_session_tears_both_halves_down() {
    let mut session = WsSession::new();
    assert_eq!(session.step(SessionEvent::BackendConnected), SessionAction::Wait);
    assert_eq!(
        session.step(SessionEvent::FromClient(ClientMessage::Binary(vec![1]))),
        SessionAction::SendToBackend(BackendMessage::Binary(vec![1]))
    );
    // The backend process stops: its socket ends, the whole session ends.
    assert_eq!(session.step(SessionEvent::BackendGone), SessionAction::TearDown);
    assert_eq!(
        session.step(SessionEvent::FromBackend(BackendMessage::Text("late".to_string()))),
        SessionAction::Wait
    );
}

#[test]
fn client_loss_and_failed_writes_also_end_the_session() {
    let mut session = WsSession::new();
    assert_eq!(session.step(SessionEvent::BackendConnected), SessionAction::Wait);
    assert_eq!(session.step(SessionEvent::ClientGone), SessionAction::TearDown);

    let mut session = WsSession::new();
    assert_eq!(session.step(SessionEvent::BackendConnected), SessionAction::Wait);
    assert_eq!(session.step(SessionEvent::SendFailed), SessionAction::TearDown);
}
