use bingo_backend::create::{create_game, CreateGameRequest};
use bingo_backend::heartbeat::{Heartbeat, HeartbeatDecision};
use bingo_backend::manager::GamesManager;
use bingo_backend::websocket::{
    open_session, Frame, FrameAction, SessionState, WsRequestError, HEARTBEAT_INTERVAL_MS,
    HEARTBEAT_LENIENCY_MS,
};

fn manager_with_game(id: u128) -> GamesManager {
    let mut manager = GamesManager::new();
    let request = CreateGameRequest { items: vec![String::from("bleh"); 25], size: 5 };
    create_game(&mut manager, id, request).unwrap();
    manager
}

#[test]
fn heartbeat_closes_only_after_the_window() {
    let heartbeat = Heartbeat::new(HEARTBEAT_INTERVAL_MS, HEARTBEAT_LENIENCY_MS);
    // last activity at time 0, interval 29s, leniency 1s
    assert_eq!(heartbeat.on_tick(0, 0), HeartbeatDecision::Ping);
    assert_eq!(heartbeat.on_tick(0, 29000), HeartbeatDecision::Ping);
    // exactly at interval + leniency the connection is still alive
    assert_eq!(heartbeat.on_tick(0, 30000), HeartbeatDecision::Ping);
    // the first tick past the window closes it
    assert_eq!(heartbeat.on_tick(0, 30001), HeartbeatDecision::TimedOut);
    assert_eq!(heartbeat.on_tick(0, 120000), HeartbeatDecision::TimedOut);
}

#[test]
fn heartbeat_respects_fresh_activity() {
    let heartbeat = Heartbeat::new(29000, 1000);
    assert_eq!(heartbeat.on_tick(100000, 120000), HeartbeatDecision::Ping);
    assert_eq!(heartbeat.on_tick(100000, 130001), HeartbeatDecision::TimedOut);
}

#[test]
fn upgrade_for_unknown_game_is_rejected() {
    let manager = GamesManager::new();
    let result = open_session(&manager, 5, 0);
    assert!(matches!(result, Err(WsRequestError::NoSuchGame)));
}

#[test]
fn session_lifecycle() {
    let manager = manager_with_game(3);
    let mut session = open_session(&manager, 3, 1000).unwrap();
    assert_eq!(session.state(), SessionState::Starting);
    assert_eq!(session.last_activity_ms(), 1000);

    let (heartbeat, _listener) = session.start();
    assert_eq!(session.state(), SessionState::Active);
    assert_eq!(heartbeat.on_tick(session.last_activity_ms(), 1000), HeartbeatDecision::Ping);

    // every frame counts as activity; text and unknown frames are ignored
    let action = session.handle_frame(&Frame::Text(String::from("{\"whatever\":1}")), 2000);
    assert_eq!(action, FrameAction::Continue);
    assert_eq!(session.state(), SessionState::Active);
    assert_eq!(session.last_activity_ms(), 2000);

    let action = session.handle_frame(&Frame::Other, 3000);
    assert_eq!(action, FrameAction::Continue);
    assert_eq!(session.last_activity_ms(), 3000);

    let action = session.handle_frame(&Frame::Invalid, 4000);
    assert_eq!(action, FrameAction::Continue);
    assert_eq!(session.state(), SessionState::Active);

    // a close frame begins teardown
    let action = session.handle_frame(&Frame::Close, 5000);
    assert_eq!(action, FrameAction::Stop);
    assert_eq!(session.state(), SessionState::Stopping);

    session.stop();
    assert_eq!(session.state(), SessionState::Stopped);
}

#[test]
fn forwarder_closure_tears_the_session_down() {
    let manager = manager_with_game(4);
    let mut session = open_session(&manager, 4, 0).unwrap();
    let _tasks = session.start();

    session.on_forwarder_closed();
    assert_eq!(session.state(), SessionState::Stopping);
    session.stop();
    assert_eq!(session.state(), SessionState::Stopped);
}

#[test]
fn ws_request_error_response() {
    let error = WsRequestError::NoSuchGame;
    assert_eq!(error.status_code(), 400);
    assert_eq!(error.message(), "there is no such game");
}
