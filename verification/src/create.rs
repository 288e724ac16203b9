//! Game creation: request validation and registration.

use vstd::prelude::*;

use crate::event::ServerEvent;
use crate::game::Game;
use crate::game::Item;
use crate::manager::GamesManager;
use crate::playerdata::PlayerData;

verus! {

/// What a client submits to create a game: the item pool and the board
/// side length. `size` must be an odd number between 5 and 23 inclusive,
/// and `items` must hold at least `size * size` entries.
#[derive(Debug, Clone)]
pub struct CreateGameRequest {
    pub items: Vec<String>,
    pub size: u32,
}

/// Why a creation request was rejected.
#[derive(Debug, Clone, Copy, PartialEq, Eq, Structural)]
pub enum CreateError {
    /// there were not enough items to fill a bingo card
    NotEnoughItems,
    /// the size of the requested bingo board was not odd
    SizeNotOdd,
    /// the board was too big
    TooBig,
    /// the board was too small
    TooSmall,
}

impl CreateError {
    /// Every creation failure is the client's fault: HTTP 400.
    pub fn status_code(&self) -> (c: u16)
        ensures
            c == 400,
    {
        400
    }

    /// The human-readable description of this rejection.
    pub fn message(&self) -> (m: String)
        ensures
            *self is NotEnoughItems ==> m@ == "there were not enough items to fill a bingo card"@,
            *self is SizeNotOdd ==> m@ == "the size of the requested bingo board was not odd"@,
            *self is TooBig ==> m@ == "the board was too big!"@,
            *self is TooSmall ==> m@ == "the board was too small"@,
    {
        match self {
            CreateError::NotEnoughItems => String::from_str(
                "there were not enough items to fill a bingo card",
            ),
            CreateError::SizeNotOdd => String::from_str(
                "the size of the requested bingo board was not odd",
            ),
            CreateError::TooBig => String::from_str("the board was too big!"),
            CreateError::TooSmall => String::from_str("the board was too small"),
        }
    }
}

/// The identifier handed back for a freshly created game.
#[derive(Debug, Clone, Copy, PartialEq, Eq, Structural)]
pub struct CreatedGame {
    pub id: u128,
}

/// The validation verdict on a creation request, checks in this order:
/// too big, too small, parity, item count.
pub open spec fn spec_validate(size: u32, items_len: int) -> Result<(), CreateError> {
    if size > 23 {
        Err(CreateError::TooBig)
    } else if size < 5 {
        Err(CreateError::TooSmall)
    } else if size % 2 != 1 {
        Err(CreateError::SizeNotOdd)
    } else if items_len < (size as int) * (size as int) {
        Err(CreateError::NotEnoughItems)
    } else {
        Ok(())
    }
}

/// A request that passes validation: odd size in `[5, 23]` and enough
/// items to fill one board.
pub open spec fn request_ok(size: u32, items_len: int) -> bool {
    spec_validate(size, items_len) is Ok
}

/// What the game built from a creation request looks like: the requested
/// size, one item per submitted text (in order, none picked), and no
/// players or events yet.
pub open spec fn created_game_ok(g: Game, id: u128, request: CreateGameRequest) -> bool {
    &&& g.spec_id() == id
    &&& g.spec_size() == request.size
    &&& g.spec_items() == request.items@.map_values(|t: String| Item { text: t, picked: false })
    &&& g.spec_players() == Map::<u128, PlayerData>::empty()
    &&& g.spec_history() == Seq::<ServerEvent>::empty()
}

/// Validates `request` and, when it passes, registers a fresh game under
/// `id`. The identifier must be freshly generated (never one already in
/// the registry): callers mint it, so a collision is a caller bug.
pub fn create_game(manager: &mut GamesManager, id: u128, request: CreateGameRequest) -> (r: Result<
    CreatedGame,
    CreateError,
>)
    requires
        !old(manager).spec_games().contains_key(id),
    ensures
        match r {
            Ok(c) => request_ok(request.size, request.items@.len() as int) && c == (CreatedGame {
                id,
            }),
            Err(e) => spec_validate(request.size, request.items@.len() as int) == Err::<
                (),
                CreateError,
            >(e),
        },
        r is Ok ==> {
            &&& final(manager).spec_games() == old(manager).spec_games().insert(
                id,
                final(manager).spec_games()[id],
            )
            &&& created_game_ok(final(manager).spec_games()[id], id, request)
        },
        r is Err ==> *final(manager) == *old(manager),
{
    if request.size > 23 {
        return Err(CreateError::TooBig);
    }
    if request.size < 5 {
        return Err(CreateError::TooSmall);
    }
    if request.size % 2 != 1 {
        return Err(CreateError::SizeNotOdd);
    }
    proof {
        assert((request.size as int) * (request.size as int) <= 529) by (nonlinear_arith)
            requires
                request.size <= 23,
        ;
    }
    let needed = (request.size * request.size) as usize;
    if request.items.len() < needed {
        return Err(CreateError::NotEnoughItems);
    }

    let mut items: Vec<Item> = Vec::new();
    let mut i: usize = 0;
    while i < request.items.len()
        invariant
            i <= request.items@.len(),
            items@ == request.items@.take(i as int).map_values(
                |t: String| Item { text: t, picked: false },
            ),
        decreases request.items@.len() - i,
    {
        items.push(Item::from(request.items[i].clone()));
        proof {
            assert(items@ =~= request.items@.take(i + 1 as int).map_values(
                |t: String| Item { text: t, picked: false },
            ));
        }
        i = i + 1;
    }
    proof {
        assert(request.items@.take(request.items@.len() as int) =~= request.items@);
    }

    let game = Game::new(id, request.size, items);
    manager.new_game(game);
    Ok(CreatedGame { id })
}

/// Law: every odd size from 5 to 23 with at least `size * size` items
/// passes validation, so such a request always creates a game.
pub proof fn lemma_valid_request_accepted(size: u32, items_len: int)
    requires
        5 <= size <= 23,
        size % 2 == 1,
        items_len >= (size as int) * (size as int),
    ensures
        spec_validate(size, items_len) is Ok,
{
}

/// Law: an even size, a size below 5 or above 23, or an item list shorter
/// than `size * size` is rejected before any game exists.
pub proof fn lemma_invalid_request_rejected(size: u32, items_len: int)
    requires
        size % 2 == 0 || size < 5 || size > 23 || items_len < (size as int) * (size as int),
    ensures
        spec_validate(size, items_len) is Err,
{
}

} // verus!
