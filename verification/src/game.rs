//! The game entity: a fixed item pool, per-player boards and a broadcast
//! bus of server events.
//!
//! The bus keeps the full publish history and hands each subscriber a
//! cursor into it: a subscriber created by [`Game::subscribe_to`] starts at
//! the current end of the history, so it observes exactly the events
//! published after it subscribed, in publish order, and never replays
//! older ones. Connection glue that pushes events over a real socket polls
//! [`Game::next_event`] with its own [`Subscription`].

use vstd::prelude::*;

use std::collections::HashMap;

use crate::event::ServerEvent;
use crate::playerdata::PlayerData;
use crate::playerdata::board_ok;

verus! {

broadcast use vstd::std_specs::hash::group_hash_axioms;

/// One entry of a game's item pool.
#[derive(Debug, Clone)]
pub struct Item {
    pub text: String,
    /// reserved for future gameplay; never set yet
    pub picked: bool,
}

impl From<String> for Item {
    fn from(value: String) -> (r: Item) {
        Item { text: value, picked: false }
    }
}

impl vstd::std_specs::convert::FromSpecImpl<String> for Item {
    open spec fn obeys_from_spec() -> bool {
        true
    }

    open spec fn from_spec(value: String) -> Item {
        Item { text: value, picked: false }
    }
}

/// A receiving handle on a game's event bus: a cursor into the publish
/// history of the game it was created from. Events before the cursor have
/// already been delivered (or predate the subscription and never will be).
#[derive(Debug)]
pub struct Subscription {
    for_game: u128,
    cursor: usize,
}

impl Subscription {
    /// The identifier of the game this handle subscribes to.
    pub closed spec fn spec_game_id(&self) -> u128 {
        self.for_game
    }

    /// How many events of the game's history are already behind this
    /// subscriber.
    pub closed spec fn spec_cursor(&self) -> int {
        self.cursor as int
    }

    /// The identifier of the game this handle subscribes to.
    pub fn game_id(&self) -> (g: u128)
        ensures
            g == self.spec_game_id(),
    {
        self.for_game
    }
}

/// A single bingo game: an identifier, the board side length, the item
/// pool, one board per joined player, and the history of published events.
#[derive(Debug)]
pub struct Game {
    id: u128,
    size: u32,
    items: Vec<Item>,
    players: HashMap<u128, PlayerData>,
    history: Vec<ServerEvent>,
}

impl Game {
    pub closed spec fn spec_id(&self) -> u128 {
        self.id
    }

    pub closed spec fn spec_size(&self) -> u32 {
        self.size
    }

    pub closed spec fn spec_items(&self) -> Seq<Item> {
        self.items@
    }

    pub closed spec fn spec_players(&self) -> Map<u128, PlayerData> {
        self.players@
    }

    /// Every event published on this game so far, in publish order.
    pub closed spec fn spec_history(&self) -> Seq<ServerEvent> {
        self.history@
    }

    /// A game always has enough items to fill one board.
    pub open spec fn wf(&self) -> bool {
        self.spec_items().len() >= (self.spec_size() as int) * (self.spec_size() as int)
    }

    /// The events `sub` has not received yet: the history from the
    /// subscriber's cursor on.
    pub open spec fn spec_pending(&self, sub: Subscription) -> Seq<ServerEvent> {
        self.spec_history().skip(sub.spec_cursor())
    }

    /// Builds a game over `items` with `size`-sided boards. The item pool
    /// must be able to fill one board; a caller that has not validated
    /// this has a bug, so the requirement is a precondition, not a runtime
    /// error.
    pub fn new(id: u128, size: u32, items: Vec<Item>) -> (g: Game)
        requires
            (size as int) * (size as int) <= u32::MAX as int,
            items@.len() >= (size as int) * (size as int),
        ensures
            g.spec_id() == id,
            g.spec_size() == size,
            g.spec_items() == items@,
            g.spec_players() == Map::<u128, PlayerData>::empty(),
            g.spec_history() == Seq::<ServerEvent>::empty(),
            g.wf(),
    {
        Game { id, size, items, players: HashMap::new(), history: Vec::new() }
    }

    /// The item pool, in creation order.
    pub fn get_items(&self) -> (r: &[Item])
        ensures
            r@ == self.spec_items(),
    {
        self.items.as_slice()
    }

    /// The board side length.
    pub fn get_size(&self) -> (s: u32)
        ensures
            s == self.spec_size(),
    {
        self.size
    }

    /// The game identifier.
    pub fn get_id(&self) -> (r: u128)
        ensures
            r == self.spec_id(),
    {
        self.id
    }

    /// A new receiving handle on the event bus. It starts at the end of
    /// the current history: events already published are not replayed.
    pub fn subscribe_to(&self) -> (sub: Subscription)
        ensures
            sub.spec_game_id() == self.spec_id(),
            sub.spec_cursor() == self.spec_history().len(),
            self.spec_pending(sub) == Seq::<ServerEvent>::empty(),
    {
        let sub = Subscription { for_game: self.id, cursor: self.history.len() };
        proof {
            assert(self.spec_pending(sub) =~= Seq::<ServerEvent>::empty());
        }
        sub
    }

    /// Publishes `event` to every current subscriber by appending it to
    /// the history; subscribers with no pending events pick it up on their
    /// next poll, and a game with no subscribers simply keeps the entry
    /// with nobody to read it.
    pub fn send_event(&mut self, event: ServerEvent)
        ensures
            final(self).spec_history() == old(self).spec_history().push(event),
            final(self).spec_id() == old(self).spec_id(),
            final(self).spec_size() == old(self).spec_size(),
            final(self).spec_items() == old(self).spec_items(),
            final(self).spec_players() == old(self).spec_players(),
    {
        self.history.push(event);
    }

    /// Hands `sub` its next pending event, advancing the cursor, or `None`
    /// when the subscriber has seen the whole history.
    pub fn next_event(&self, sub: &mut Subscription) -> (r: Option<ServerEvent>)
        requires
            old(sub).spec_game_id() == self.spec_id(),
            old(sub).spec_cursor() <= self.spec_history().len(),
        ensures
            final(sub).spec_game_id() == old(sub).spec_game_id(),
            old(sub).spec_cursor() < self.spec_history().len() ==> {
                &&& r == Some(self.spec_history()[old(sub).spec_cursor()])
                &&& final(sub).spec_cursor() == old(sub).spec_cursor() + 1
            },
            old(sub).spec_cursor() == self.spec_history().len() ==> {
                &&& r is None
                &&& *final(sub) == *old(sub)
            },
            final(sub).spec_cursor() <= self.spec_history().len(),
    {
        if sub.cursor < self.history.len() {
            let e = self.history[sub.cursor];
            sub.cursor = sub.cursor + 1;
            Some(e)
        } else {
            None
        }
    }

    /// Gives `id` a freshly generated board, replacing any board that
    /// player already had. The pool-size requirements are those of board
    /// generation.
    pub fn add_new_player(&mut self, id: u128)
        requires
            old(self).spec_items().len() >= 2,
            (old(self).spec_size() as int) * (old(self).spec_size() as int) <= u32::MAX as int,
        ensures
            final(self).spec_players() == old(self).spec_players().insert(
                id,
                final(self).spec_players()[id],
            ),
            board_ok(
                final(self).spec_players()[id].spec_board(),
                old(self).spec_size(),
                old(self).spec_items().len() as int,
            ),
            final(self).spec_id() == old(self).spec_id(),
            final(self).spec_size() == old(self).spec_size(),
            final(self).spec_items() == old(self).spec_items(),
            final(self).spec_history() == old(self).spec_history(),
    {
        let data = PlayerData::new_random(self.size, self.items.len());
        self.players.insert(id, data);
    }
}

/// Law: a subscriber whose cursor is at the end of a game's history --- as
/// [`Game::subscribe_to`] leaves it --- has every event published from
/// then on pending, in publish order, exactly once each, and nothing else.
pub proof fn lemma_subscriber_receives_all(
    g0: Game,
    g1: Game,
    sub: Subscription,
    es: Seq<ServerEvent>,
)
    requires
        sub.spec_cursor() == g0.spec_history().len(),
        g1.spec_history() == g0.spec_history() + es,
    ensures
        g1.spec_pending(sub) == es,
{
    assert(g1.spec_pending(sub) =~= es);
}

/// Law: one publish reaches every current subscriber, wherever each one
/// stands in the history: the event joins the back of its pending queue.
pub proof fn lemma_publish_reaches_all_subscribers(
    g0: Game,
    g1: Game,
    sub: Subscription,
    e: ServerEvent,
)
    requires
        0 <= sub.spec_cursor() <= g0.spec_history().len(),
        g1.spec_history() == g0.spec_history().push(e),
    ensures
        g1.spec_pending(sub) == g0.spec_pending(sub).push(e),
{
    assert(g1.spec_pending(sub) =~= g0.spec_pending(sub).push(e));
}

/// Law: no replay --- a subscription taken at any point has none of the
/// previously published events pending, so a handle obtained only after a
/// publish can never observe that event.
pub proof fn lemma_no_replay(g: Game, sub: Subscription)
    requires
        sub.spec_cursor() == g.spec_history().len(),
    ensures
        g.spec_pending(sub) == Seq::<ServerEvent>::empty(),
{
    assert(g.spec_pending(sub) =~= Seq::<ServerEvent>::empty());
}

/// Law: every pending event of a subscription is an event of that game's
/// own history --- a subscriber observes no events besides those published
/// on the game it subscribed to.
pub proof fn lemma_pending_from_history(g: Game, sub: Subscription)
    requires
        0 <= sub.spec_cursor() <= g.spec_history().len(),
    ensures
        forall|i: int|
            0 <= i < g.spec_pending(sub).len() ==> g.spec_pending(sub)[i] == g.spec_history()[
                sub.spec_cursor() + i
            ],
{
}

/// Law: two subscribers standing at the same point of the same game's
/// history have identical event sequences pending --- all subscribers see
/// the same events in the same order.
pub proof fn lemma_subscribers_agree(g: Game, s1: Subscription, s2: Subscription)
    requires
        s1.spec_cursor() == s2.spec_cursor(),
    ensures
        g.spec_pending(s1) == g.spec_pending(s2),
{
}

} // verus!
