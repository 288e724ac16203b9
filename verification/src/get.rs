//! Game lookup: the data a client needs to start playing.

use vstd::prelude::*;

use crate::game::Item;
use crate::manager::GamesManager;

verus! {

/// The client-facing view of a game: its item pool and board side length.
#[derive(Debug, Clone)]
pub struct GameData<'a> {
    pub items: &'a [Item],
    pub size: u32,
}

/// Looks up the game registered under `id` and projects out what a joining
/// client needs; `None` exactly when no such game is registered.
pub fn get_game<'a>(manager: &'a GamesManager, id: u128) -> (r: Option<GameData<'a>>)
    ensures
        match r {
            Some(d) => {
                &&& manager.spec_games().contains_key(id)
                &&& d.items@ == manager.spec_games()[id].spec_items()
                &&& d.size == manager.spec_games()[id].spec_size()
            },
            None => !manager.spec_games().contains_key(id),
        },
{
    match manager.get_game(id) {
        Some(game) => Some(GameData { items: game.get_items(), size: game.get_size() }),
        None => None,
    }
}

} // verus!
