//! The per-connection event forwarder.
//!
//! One instance per connection, holding that connection's subscription on
//! the game's event bus. Each poll takes the next pending event, encodes
//! it and hands the text frame back to the connection glue to push out;
//! whole events are forwarded or nothing is, so cancelling between polls
//! never leaves a partial write behind.

use vstd::prelude::*;

use crate::event::spec_event_json;
use crate::event::serialize_event;
use crate::game::Game;
use crate::game::Subscription;

verus! {

/// What one forwarder poll produced.
#[derive(Debug)]
pub enum ListenerStep {
    /// The next pending event, already encoded for the wire.
    Forward(String),
    /// Nothing pending; poll again once the game publishes.
    Idle,
}

/// The forwarder task's state: the subscription it drains.
#[derive(Debug)]
pub struct EventListener {
    rx: Subscription,
}

impl EventListener {
    /// The subscription this forwarder drains.
    pub closed spec fn spec_rx(&self) -> Subscription {
        self.rx
    }

    /// A forwarder over the receiving handle `rx`.
    pub fn new(rx: Subscription) -> (l: EventListener)
        ensures
            l.spec_rx() == rx,
    {
        EventListener { rx }
    }

    /// Polls the bus once: encodes and returns the subscription's next
    /// pending event, or reports that the subscriber is caught up.
    pub fn poll_next(&mut self, game: &Game) -> (step: ListenerStep)
        requires
            old(self).spec_rx().spec_game_id() == game.spec_id(),
            old(self).spec_rx().spec_cursor() <= game.spec_history().len(),
        ensures
            final(self).spec_rx().spec_game_id() == old(self).spec_rx().spec_game_id(),
            final(self).spec_rx().spec_cursor() <= game.spec_history().len(),
            match step {
                ListenerStep::Forward(text) => {
                    &&& old(self).spec_rx().spec_cursor() < game.spec_history().len()
                    &&& text@ == spec_event_json(
                        game.spec_history()[old(self).spec_rx().spec_cursor()],
                    )
                    &&& final(self).spec_rx().spec_cursor() == old(self).spec_rx().spec_cursor()
                        + 1
                },
                ListenerStep::Idle => {
                    &&& old(self).spec_rx().spec_cursor() == game.spec_history().len()
                    &&& final(self).spec_rx() == old(self).spec_rx()
                },
            },
    {
        match game.next_event(&mut self.rx) {
            Some(event) => ListenerStep::Forward(serialize_event(&event)),
            None => ListenerStep::Idle,
        }
    }
}

} // verus!
