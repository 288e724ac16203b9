//! Server-originated events and their JSON wire format.
//!
//! Events pushed to a client are encoded as a JSON object tagged with the
//! snake-case variant name: `{"new_ball":{"idx":3}}`, `{"game_over":null}`,
//! `{"reconnect":{"delay":500}}`.
//!
//! The set of client-originated events is an open extension point that is
//! still empty, so no inbound text frame decodes to anything yet; the
//! session layer logs and ignores inbound text frames (see `websocket`).

use vstd::prelude::*;

verus! {

/// An event pushed by a game to every live subscriber.
#[derive(Debug, Clone, Copy, PartialEq, Eq, Structural)]
pub enum ServerEvent {
    /// A new ball was drawn; `idx` is an index into the game's item pool.
    NewBall { idx: usize },
    /// The game has ended.
    GameOver,
    /// The client should reconnect after `delay` milliseconds.
    Reconnect { delay: u32 },
}

/// The decimal digit `d` as a character, for `d < 10`.
pub open spec fn spec_digit(d: nat) -> char {
    if d == 0 {
        '0'
    } else if d == 1 {
        '1'
    } else if d == 2 {
        '2'
    } else if d == 3 {
        '3'
    } else if d == 4 {
        '4'
    } else if d == 5 {
        '5'
    } else if d == 6 {
        '6'
    } else if d == 7 {
        '7'
    } else if d == 8 {
        '8'
    } else {
        '9'
    }
}

/// The usual decimal rendering of `n`, with no leading zeros (except for
/// `n == 0` itself).
pub open spec fn spec_dec(n: nat) -> Seq<char>
    decreases n,
{
    if n < 10 {
        seq![spec_digit(n)]
    } else {
        spec_dec(n / 10) + seq![spec_digit(n % 10)]
    }
}

/// The wire encoding of a server event, character by character.
pub open spec fn spec_event_json(e: ServerEvent) -> Seq<char> {
    match e {
        ServerEvent::NewBall { idx } => "{\"new_ball\":{\"idx\":"@ + spec_dec(
            idx as nat,
        ) + "}}"@,
        ServerEvent::GameOver => "{\"game_over\":null}"@,
        ServerEvent::Reconnect { delay } => "{\"reconnect\":{\"delay\":"@ + spec_dec(
            delay as nat,
        ) + "}}"@,
    }
}

fn digit_str(d: u64) -> (r: &'static str)
    requires
        d < 10,
    ensures
        r@ == seq![spec_digit(d as nat)],
{
    proof {
        reveal_strlit("0");
        reveal_strlit("1");
        reveal_strlit("2");
        reveal_strlit("3");
        reveal_strlit("4");
        reveal_strlit("5");
        reveal_strlit("6");
        reveal_strlit("7");
        reveal_strlit("8");
        reveal_strlit("9");
    }
    match d {
        0 => "0",
        1 => "1",
        2 => "2",
        3 => "3",
        4 => "4",
        5 => "5",
        6 => "6",
        7 => "7",
        8 => "8",
        _ => "9",
    }
}

/// Appends the decimal rendering of `n` to `s`.
pub fn append_dec(s: &mut String, n: u64)
    ensures
        final(s)@ == old(s)@ + spec_dec(n as nat),
    decreases n,
{
    if n < 10 {
        s.append(digit_str(n));
    } else {
        append_dec(s, n / 10);
        s.append(digit_str(n % 10));
        assert(s@ =~= old(s)@ + spec_dec(n as nat));
    }
}

/// Encodes a server event for the client, exactly as `spec_event_json`
/// describes it.
pub fn serialize_event(event: &ServerEvent) -> (r: String)
    ensures
        r@ == spec_event_json(*event),
{
    match event {
        ServerEvent::NewBall { idx } => {
            let mut s = String::from_str("{\"new_ball\":{\"idx\":");
            append_dec(&mut s, *idx as u64);
            s.append("}}");
            assert(s@ =~= spec_event_json(*event));
            s
        },
        ServerEvent::GameOver => String::from_str("{\"game_over\":null}"),
        ServerEvent::Reconnect { delay } => {
            let mut s = String::from_str("{\"reconnect\":{\"delay\":");
            append_dec(&mut s, *delay as u64);
            s.append("}}");
            assert(s@ =~= spec_event_json(*event));
            s
        },
    }
}

} // verus!
