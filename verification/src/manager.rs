//! The process-wide registry of running games.
//!
//! The registry is the one structure mutated from unrelated call sites
//! (creation and removal from request handlers, lookup from session
//! startup); connection glue shares a single registry value behind its own
//! lock and keeps every lookup brief.

use vstd::prelude::*;

use std::collections::HashMap;

use crate::game::Game;

verus! {

broadcast use vstd::std_specs::hash::group_hash_axioms;

/// Maps each game identifier to the running game it denotes.
/// Identifiers are freshly generated at creation and never reused.
#[derive(Debug)]
pub struct GamesManager {
    games: HashMap<u128, Game>,
}

impl GamesManager {
    /// The registry contents as a map from identifier to game.
    pub closed spec fn spec_games(&self) -> Map<u128, Game> {
        self.games@
    }

    /// An empty registry.
    pub fn new() -> (m: GamesManager)
        ensures
            m.spec_games() == Map::<u128, Game>::empty(),
    {
        GamesManager { games: HashMap::new() }
    }

    /// Registers `game` under its own identifier. Identifiers are never
    /// reused, so a collision is a bug in the caller; the precondition
    /// rules it out rather than handling it.
    pub fn new_game(&mut self, game: Game)
        requires
            !old(self).spec_games().contains_key(game.spec_id()),
        ensures
            final(self).spec_games() == old(self).spec_games().insert(game.spec_id(), game),
    {
        let id = game.get_id();
        self.games.insert(id, game);
    }

    /// Removes the entry for `id`, if any. Subscriptions taken earlier
    /// keep their place in that game's history; removal only stops new
    /// lookups from finding the game.
    pub fn remove_game(&mut self, id: u128)
        ensures
            final(self).spec_games() == old(self).spec_games().remove(id),
    {
        self.games.remove(&id);
    }

    /// Looks the game up for reading; `None` exactly when no game is
    /// registered under `id`.
    pub fn get_game(&self, id: u128) -> (r: Option<&Game>)
        ensures
            match r {
                Some(g) => self.spec_games().contains_key(id) && *g == self.spec_games()[id],
                None => !self.spec_games().contains_key(id),
            },
    {
        self.games.get(&id)
    }

    /// Looks the game up for mutation (publishing an event, adding a
    /// player); `None` exactly when no game is registered under `id`.
    pub fn get_game_mut(&mut self, id: u128) -> (r: Option<&mut Game>)
        ensures
            match r {
                Some(g) => {
                    &&& old(self).spec_games().contains_key(id)
                    &&& *g == old(self).spec_games()[id]
                    &&& final(self).spec_games() == old(self).spec_games().insert(id, *final(g))
                },
                None => {
                    &&& !old(self).spec_games().contains_key(id)
                    &&& final(self).spec_games() == old(self).spec_games()
                },
            },
    {
        match self.games.entry(id) {
            std::collections::hash_map::Entry::Occupied(e) => Some(e.into_mut()),
            std::collections::hash_map::Entry::Vacant(_) => {
                proof {
                    assert(old(self).spec_games().remove(id) =~= old(self).spec_games());
                }
                None
            },
        }
    }
}

impl Default for GamesManager {
    /// An empty registry.
    fn default() -> (m: GamesManager)
        ensures
            m.spec_games() == Map::<u128, Game>::empty(),
    {
        GamesManager::new()
    }
}

/// Law: a lookup made after a removal does not find the game, whatever
/// the registry held before.
pub proof fn lemma_get_after_remove(m0: GamesManager, m1: GamesManager, id: u128)
    requires
        m1.spec_games() == m0.spec_games().remove(id),
    ensures
        !m1.spec_games().contains_key(id),
{
}

/// Law: removing one game leaves every other registered game untouched,
/// history included.
pub proof fn lemma_remove_leaves_others(m0: GamesManager, m1: GamesManager, id: u128, other: u128)
    requires
        m1.spec_games() == m0.spec_games().remove(id),
        other != id,
        m0.spec_games().contains_key(other),
    ensures
        m1.spec_games().contains_key(other),
        m1.spec_games()[other] == m0.spec_games()[other],
{
}

} // verus!
