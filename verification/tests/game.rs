use bingo_backend::create::{create_game, CreateError, CreateGameRequest};
use bingo_backend::event::ServerEvent;
use bingo_backend::game::{Game, Item};
use bingo_backend::get::get_game;
use bingo_backend::manager::GamesManager;
use bingo_backend::playerdata::PlayerData;

fn bleh_items(n: usize) -> Vec<String> {
    vec![String::from("bleh"); n]
}

fn pool(n: usize) -> Vec<Item> {
    let mut items = Vec::new();
    for i in 0..n {
        items.push(Item::from(format!("item {}", i)));
    }
    items
}

#[test]
fn test_create() {
    let mut manager = GamesManager::new();
    let request = CreateGameRequest { items: bleh_items(25), size: 5 };
    let created = create_game(&mut manager, 1, request).expect("creation should succeed");
    assert_eq!(created.id, 1);

    let data = get_game(&manager, created.id).expect("the created game should be found");
    assert_eq!(data.size, 5);
    assert_eq!(data.items.len(), 25);
    assert_eq!(data.items[0].text, "bleh");
    assert!(!data.items[0].picked);
}

#[test]
fn every_valid_size_is_accepted() {
    let mut manager = GamesManager::new();
    let mut id: u128 = 100;
    let mut size: u32 = 5;
    while size <= 23 {
        let request = CreateGameRequest {
            items: bleh_items((size * size) as usize),
            size,
        };
        let created = create_game(&mut manager, id, request);
        assert!(created.is_ok(), "size {} should be accepted", size);
        let game = manager.get_game(id).expect("game should be registered");
        assert_eq!(game.get_size(), size);
        assert_eq!(game.get_items().len(), (size * size) as usize);
        id += 1;
        size += 2;
    }
}

#[test]
fn invalid_requests_are_rejected() {
    let mut manager = GamesManager::new();
    let cases: Vec<(u32, usize, CreateError)> = vec![
        (24, 600, CreateError::TooBig),
        (25, 625, CreateError::TooBig),
        (4, 25, CreateError::TooSmall),
        (0, 25, CreateError::TooSmall),
        (6, 36, CreateError::SizeNotOdd),
        (22, 484, CreateError::SizeNotOdd),
        (5, 24, CreateError::NotEnoughItems),
        (23, 528, CreateError::NotEnoughItems),
    ];
    for (size, n_items, expected) in cases {
        let request = CreateGameRequest { items: bleh_items(n_items), size };
        let result = create_game(&mut manager, 1, request);
        assert_eq!(result, Err(expected), "size {} with {} items", size, n_items);
        assert!(manager.get_game(1).is_none(), "no game may exist after a rejection");
    }
}

#[test]
fn get_after_remove_is_not_found() {
    let mut manager = GamesManager::new();
    let request = CreateGameRequest { items: bleh_items(25), size: 5 };
    create_game(&mut manager, 9, request).unwrap();
    assert!(manager.get_game(9).is_some());

    manager.remove_game(9);
    assert!(manager.get_game(9).is_none());
    assert!(get_game(&manager, 9).is_none());
}

#[test]
fn remove_leaves_other_games_alone() {
    let mut manager = GamesManager::new();
    create_game(&mut manager, 1, CreateGameRequest { items: bleh_items(25), size: 5 }).unwrap();
    create_game(&mut manager, 2, CreateGameRequest { items: bleh_items(49), size: 7 }).unwrap();

    manager.remove_game(1);
    assert!(manager.get_game(1).is_none());
    let survivor = manager.get_game(2).expect("the other game must survive");
    assert_eq!(survivor.get_size(), 7);
}

#[test]
fn delivery_needs_no_registry_membership() {
    // a game value held by its sessions keeps delivering wherever it
    // lives; registry removal only stops new lookups from finding it
    let mut game = Game::new(77, 5, pool(25));
    let mut sub = game.subscribe_to();
    game.send_event(ServerEvent::NewBall { idx: 4 });
    assert_eq!(game.next_event(&mut sub), Some(ServerEvent::NewBall { idx: 4 }));
    assert_eq!(game.next_event(&mut sub), None);
}

#[test]
fn boards_have_the_right_shape() {
    let mut game = Game::new(5, 5, pool(30));
    game.add_new_player(42);

    let data = PlayerData::new_random(5, 30);
    assert_eq!(data.board().len(), 25);
    for &cell in data.board().iter() {
        assert!(cell < 30);
    }
}

#[test]
fn new_random_draws_independent_cells() {
    // the smallest pool the generator accepts
    let data = PlayerData::new_random(3, 2);
    assert_eq!(data.board().len(), 9);
    for &cell in data.board().iter() {
        assert!(cell < 2);
    }
}

#[test]
fn item_from_string_is_unpicked() {
    let item = Item::from(String::from("free space"));
    assert_eq!(item.text, "free space");
    assert!(!item.picked);
}
