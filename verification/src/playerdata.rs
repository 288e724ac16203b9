//! Per-player board data and its pseudo-random generation.

use vstd::prelude::*;

verus! {

/// A player's personal board: a grid of indices into the owning game's
/// item pool, stored row by row.
#[derive(Debug, Clone)]
pub struct PlayerData {
    /// indices of items
    board: Vec<usize>,
}

/// A board fits a game with `size`-sided boards over `items_len` items
/// when it has exactly `size * size` cells and every cell indexes an item.
pub open spec fn board_ok(board: Seq<usize>, size: u32, items_len: int) -> bool {
    &&& board.len() == size * size
    &&& forall|i: int| 0 <= i < board.len() ==> board[i] < items_len
}

#[verifier::external_type_specification]
#[verifier::external_body]
pub struct ExThreadRng(rand::rngs::ThreadRng);

/// Relies on rand::thread_rng for a handle to the thread-local generator;
/// nothing is assumed about the values it will produce.
#[verifier::external_body]
fn thread_rng_handle() -> rand::rngs::ThreadRng {
    rand::thread_rng()
}

/// Relies on rand::Rng::gen_range over the range `0..bound`: the draw lies
/// in the range. The range must be non-empty, since gen_range panics on an
/// empty one.
#[verifier::external_body]
fn gen_below(rng: &mut rand::rngs::ThreadRng, bound: usize) -> (r: usize)
    requires
        bound > 0,
    ensures
        r < bound,
{
    rand::Rng::gen_range(rng, 0..bound)
}

impl PlayerData {
    /// The board cells, as a sequence of item indices.
    pub closed spec fn spec_board(&self) -> Seq<usize> {
        self.board@
    }

    /// The board cells, row by row.
    pub fn board(&self) -> (b: &Vec<usize>)
        ensures
            b@ == self.spec_board(),
    {
        &self.board
    }

    /// Builds a fresh board of `board_size * board_size` cells over a pool
    /// of `items_len` items.
    ///
    /// A full permutation of the item indices is shuffled first and then
    /// deliberately left aside: the cells are filled by independent uniform
    /// draws over the whole pool, so one board may repeat an item. This
    /// two-phase behaviour is kept on purpose; slicing the shuffled
    /// permutation instead would give boards without repeats and is a
    /// deliberate non-goal here.
    pub fn new_random(board_size: u32, items_len: usize) -> (r: PlayerData)
        requires
            items_len >= 2,
            board_size * board_size <= u32::MAX,
        ensures
            board_ok(r.spec_board(), board_size, items_len as int),
    {
        let mut rng = thread_rng_handle();
        let mut items: Vec<usize> = Vec::with_capacity(items_len);
        for i in 0..items_len
            invariant
                items@.len() == i,
        {
            items.push(i);
        }
        let mut i: usize = 0;
        while i < items_len
            invariant
                items@.len() == items_len,
                items_len >= 2,
            decreases items_len - i,
        {
            let random = gen_below(&mut rng, items_len - 1);
            let a = items[random];
            let b = items[items_len - 1 - i];
            items.set(random, b);
            items.set(items_len - 1 - i, a);
            i = i + 1;
        }

        let cells = (board_size * board_size) as usize;
        let mut board: Vec<usize> = Vec::with_capacity(cells);

        for j in 0..cells
            invariant
                board@.len() == j,
                items_len >= 2,
                forall|k: int| 0 <= k < board@.len() ==> board@[k] < items_len,
        {
            board.push(gen_below(&mut rng, items_len));
        }

        PlayerData { board }
    }
}

} // verus!
