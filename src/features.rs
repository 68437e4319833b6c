use vstd::prelude::*;

use crate::actions::{in_range, neighbor, shifted, to_cell};
use crate::game::{on_board, Game};
use crate::tower::{height, Worker};

verus! {

/// Both workers of player `p` stand on the board.
pub open spec fn placed_on_board(game: Game, p: int) -> bool {
    on_board(game.player_locations[p].0) && on_board(game.player_locations[p].1)
}

/// The number of the first `k` neighbors of worker `w`'s cell that it may move to.
pub open spec fn movable_count(game: Game, p: int, w: Worker, k: int) -> nat
    decreases k,
{
    if k <= 0 {
        0
    } else {
        let m = shifted(game.worker_at(p, w), k - 1);
        movable_count(game, p, w, k - 1) + if in_range(m) && game.can_move(p, w, to_cell(m)) {
            1nat
        } else {
            0nat
        }
    }
}

/// The sum of the heights under both workers of the player, or 0 when a worker is
/// not on the board.
pub fn get_total_height(game: &Game, player_id: usize) -> (r: u8)
    requires
        player_id < 3,
    ensures
        r == (if placed_on_board(*game, player_id as int) {
            height(game.tower(game.player_locations[player_id as int].0)) + height(
                game.tower(game.player_locations[player_id as int].1),
            )
        } else {
            0
        }),
{
    let (w1, w2) = game.player_locations[player_id];
    if w1.0 >= 5 || w1.1 >= 5 || w2.0 >= 5 || w2.1 >= 5 {
        0
    } else {
        game.board[w1.0 as usize][w1.1 as usize].to_int() + game.board[w2.0 as usize][w2.1
            as usize].to_int()
    }
}

/// The larger of the heights under the player's workers, or 0 when a worker is not
/// on the board.
pub fn get_max_height(game: &Game, player_id: usize) -> (r: u8)
    requires
        player_id < 3,
    ensures
        r == (if placed_on_board(*game, player_id as int) {
            let h1 = height(game.tower(game.player_locations[player_id as int].0));
            let h2 = height(game.tower(game.player_locations[player_id as int].1));
            if h1 >= h2 {
                h1
            } else {
                h2
            }
        } else {
            0
        }),
{
    let (w1, w2) = game.player_locations[player_id];
    if w1.0 >= 5 || w1.1 >= 5 || w2.0 >= 5 || w2.1 >= 5 {
        0
    } else {
        let h1 = game.board[w1.0 as usize][w1.1 as usize].to_int();
        let h2 = game.board[w2.0 as usize][w2.1 as usize].to_int();
        if h1 >= h2 {
            h1
        } else {
            h2
        }
    }
}

fn count_movable(game: &Game, player_id: usize, worker: Worker) -> (r: u8)
    requires
        player_id < 3,
    ensures
        r == movable_count(*game, player_id as int, worker, 8),
        r <= 8,
{
    let base = if worker == Worker::One {
        game.player_locations[player_id].0
    } else {
        game.player_locations[player_id].1
    };
    let mut count: u8 = 0;
    let mut k: usize = 0;
    while k < 8
        invariant
            k <= 8,
            player_id < 3,
            base == game.worker_at(player_id as int, worker),
            count == movable_count(*game, player_id as int, worker, k as int),
            count <= k,
        decreases 8 - k,
    {
        if let Some(m) = neighbor(base, k) {
            if game.can_move_to_square(player_id, worker, m) {
                count += 1;
            }
        }
        k += 1;
    }
    count
}

/// How many (worker, cell) moves the player has: for each worker, the number of
/// neighboring cells it may step onto.
pub fn squares_movable_to(game: &Game, player_id: usize) -> (r: u8)
    requires
        player_id < 3,
    ensures
        r == movable_count(*game, player_id as int, Worker::One, 8) + movable_count(
            *game,
            player_id as int,
            Worker::Two,
            8,
        ),
{
    count_movable(game, player_id, Worker::One) + count_movable(game, player_id, Worker::Two)
}

} // verus!
