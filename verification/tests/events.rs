use bingo_backend::create::{create_game, CreateGameRequest};
use bingo_backend::event::{serialize_event, ServerEvent};
use bingo_backend::event_listener::ListenerStep;
use bingo_backend::game::{Game, Item};
use bingo_backend::manager::GamesManager;
use bingo_backend::websocket::open_session;

fn pool(n: usize) -> Vec<Item> {
    let mut items = Vec::new();
    for i in 0..n {
        items.push(Item::from(format!("item {}", i)));
    }
    items
}

#[test]
fn serialize_new_ball_exact() {
    assert_eq!(serialize_event(&ServerEvent::NewBall { idx: 3 }), "{\"new_ball\":{\"idx\":3}}");
    assert_eq!(serialize_event(&ServerEvent::NewBall { idx: 0 }), "{\"new_ball\":{\"idx\":0}}");
    assert_eq!(
        serialize_event(&ServerEvent::NewBall { idx: 1234567890 }),
        "{\"new_ball\":{\"idx\":1234567890}}"
    );
}

#[test]
fn serialize_game_over_exact() {
    assert_eq!(serialize_event(&ServerEvent::GameOver), "{\"game_over\":null}");
}

#[test]
fn serialize_reconnect_exact() {
    assert_eq!(
        serialize_event(&ServerEvent::Reconnect { delay: 500 }),
        "{\"reconnect\":{\"delay\":500}}"
    );
    assert_eq!(
        serialize_event(&ServerEvent::Reconnect { delay: u32::MAX }),
        "{\"reconnect\":{\"delay\":4294967295}}"
    );
    assert_eq!(
        serialize_event(&ServerEvent::Reconnect { delay: 10 }),
        "{\"reconnect\":{\"delay\":10}}"
    );
}

#[test]
fn early_subscriber_receives_everything_in_order() {
    let mut game = Game::new(1, 5, pool(25));
    let mut sub = game.subscribe_to();

    let published = vec![
        ServerEvent::NewBall { idx: 1 },
        ServerEvent::NewBall { idx: 2 },
        ServerEvent::GameOver,
        ServerEvent::Reconnect { delay: 500 },
    ];
    for event in published.iter() {
        game.send_event(*event);
    }

    let mut received = Vec::new();
    while let Some(event) = game.next_event(&mut sub) {
        received.push(event);
    }
    assert_eq!(received, published);
    // exactly once: the subscriber is drained now
    assert_eq!(game.next_event(&mut sub), None);
}

#[test]
fn late_subscriber_sees_no_history() {
    let mut game = Game::new(2, 5, pool(25));
    game.send_event(ServerEvent::NewBall { idx: 7 });
    game.send_event(ServerEvent::GameOver);

    let mut sub = game.subscribe_to();
    assert_eq!(game.next_event(&mut sub), None);

    // only what is published after subscribing arrives
    game.send_event(ServerEvent::Reconnect { delay: 100 });
    assert_eq!(game.next_event(&mut sub), Some(ServerEvent::Reconnect { delay: 100 }));
    assert_eq!(game.next_event(&mut sub), None);
}

#[test]
fn other_games_are_not_observed() {
    let mut manager = GamesManager::new();
    create_game(&mut manager, 1, CreateGameRequest { items: vec![String::from("a"); 25], size: 5 })
        .unwrap();
    create_game(&mut manager, 2, CreateGameRequest { items: vec![String::from("b"); 25], size: 5 })
        .unwrap();

    let mut sub = manager.get_game(1).unwrap().subscribe_to();
    manager.get_game_mut(2).unwrap().send_event(ServerEvent::NewBall { idx: 3 });

    assert_eq!(manager.get_game(1).unwrap().next_event(&mut sub), None);
}

#[test]
fn end_to_end_single_session() {
    let mut manager = GamesManager::new();
    let request = CreateGameRequest { items: vec![String::from("bleh"); 25], size: 5 };
    let created = create_game(&mut manager, 11, request).unwrap();
    assert!(manager.get_game(created.id).is_some());

    let mut session = open_session(&manager, created.id, 0).unwrap();
    let (_heartbeat, mut listener) = session.start();

    manager.get_game_mut(created.id).unwrap().send_event(ServerEvent::NewBall { idx: 3 });
    let step = listener.poll_next(manager.get_game(created.id).unwrap());
    match step {
        ListenerStep::Forward(text) => assert_eq!(text, "{\"new_ball\":{\"idx\":3}}"),
        ListenerStep::Idle => panic!("an event was pending"),
    }

    manager.get_game_mut(created.id).unwrap().send_event(ServerEvent::GameOver);
    let step = listener.poll_next(manager.get_game(created.id).unwrap());
    match step {
        ListenerStep::Forward(text) => assert_eq!(text, "{\"game_over\":null}"),
        ListenerStep::Idle => panic!("an event was pending"),
    }

    match listener.poll_next(manager.get_game(created.id).unwrap()) {
        ListenerStep::Forward(_) => panic!("nothing left to forward"),
        ListenerStep::Idle => {}
    }
}

#[test]
fn two_sessions_see_the_same_stream() {
    let mut manager = GamesManager::new();
    let request = CreateGameRequest { items: vec![String::from("bleh"); 25], size: 5 };
    let created = create_game(&mut manager, 12, request).unwrap();

    let mut first = open_session(&manager, created.id, 0).unwrap();
    let mut second = open_session(&manager, created.id, 0).unwrap();
    let (_, mut first_listener) = first.start();
    let (_, mut second_listener) = second.start();

    let events = vec![
        ServerEvent::NewBall { idx: 1 },
        ServerEvent::NewBall { idx: 17 },
        ServerEvent::GameOver,
    ];
    for event in events.iter() {
        manager.get_game_mut(created.id).unwrap().send_event(*event);
    }

    let mut first_stream = Vec::new();
    let mut second_stream = Vec::new();
    loop {
        match first_listener.poll_next(manager.get_game(created.id).unwrap()) {
            ListenerStep::Forward(text) => first_stream.push(text),
            ListenerStep::Idle => break,
        }
    }
    loop {
        match second_listener.poll_next(manager.get_game(created.id).unwrap()) {
            ListenerStep::Forward(text) => second_stream.push(text),
            ListenerStep::Idle => break,
        }
    }

    assert_eq!(first_stream, second_stream);
    assert_eq!(first_stream.len(), 3);
    assert_eq!(first_stream[0], "{\"new_ball\":{\"idx\":1}}");
    assert_eq!(first_stream[1], "{\"new_ball\":{\"idx\":17}}");
    assert_eq!(first_stream[2], "{\"game_over\":null}");
}
