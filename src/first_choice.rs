use vstd::prelude::*;

use crate::engine::Player;
use crate::game::{same_cell, Action, Game, StartLocation};
use crate::tower::Worker;

verus! {

/// The action a strategy hands in when it has no legal one; the validator always
/// rejects it, since it builds where it moves.
pub open spec fn placeholder_action() -> Action {
    (Worker::One, (0, 0), (0, 0))
}

/// The cells a first-choice strategy tries for its workers, in order.
pub open spec fn preferred_cell(k: int) -> (u8, u8) {
    if k < 5 {
        (0, k as u8)
    } else {
        (1, 0)
    }
}

/// One of the two cells of `pair` is `c`.
pub open spec fn pair_uses(pair: StartLocation, c: (u8, u8)) -> bool {
    pair.0 == c || pair.1 == c
}

/// Some placed pair already uses cell `c`.
pub open spec fn cell_taken(placed: Seq<StartLocation>, c: (u8, u8)) -> bool {
    exists|k: int| 0 <= k < placed.len() && #[trigger] pair_uses(placed[k], c)
}

/// The first `n` preferred cells that no placed pair uses, in order.
pub open spec fn free_preferred(placed: Seq<StartLocation>, n: int) -> Seq<(u8, u8)>
    decreases n,
{
    if n <= 0 {
        seq![]
    } else if cell_taken(placed, preferred_cell(n - 1)) {
        free_preferred(placed, n - 1)
    } else {
        free_preferred(placed, n - 1).push(preferred_cell(n - 1))
    }
}

/// A strategy that always takes the first legal action and the first free cells.
pub struct FirstChoice {}

impl FirstChoice {
    pub fn new() -> Self {
        FirstChoice {  }
    }
}

fn is_cell_taken(placed: &[StartLocation], c: (u8, u8)) -> (r: bool)
    ensures
        r == cell_taken(placed@, c),
{
    let mut k: usize = 0;
    while k < placed.len()
        invariant
            k <= placed@.len(),
            forall|j: int| 0 <= j < k ==> !#[trigger] pair_uses(placed@[j], c),
        decreases placed@.len() - k,
    {
        let (v1, v2) = placed[k];
        if same_cell(v1, c) || same_cell(v2, c) {
            assert(pair_uses(placed@[k as int], c));
            return true;
        }
        assert(!pair_uses(placed@[k as int], c));
        k += 1;
    }
    false
}

/// The first legal action of the player in enumeration order, or the placeholder
/// when there is none.
pub fn first_legal_action(game: &Game, player_id: usize) -> (r: Action)
    requires
        player_id < 3,
    ensures
        game.possible_actions(player_id as int).len() > 0 ==> r == game.possible_actions(
            player_id as int,
        )[0],
        game.possible_actions(player_id as int).len() == 0 ==> r == placeholder_action(),
{
    let possible_actions = game.list_possible_actions(player_id);
    if possible_actions.len() > 0 {
        possible_actions[0]
    } else {
        (Worker::One, (0, 0), (0, 0))
    }
}

/// The first two preferred cells that no placed pair uses; when fewer than two are
/// free, the first two preferred cells, which the engine then rejects.
pub fn first_free_start(placed: &[StartLocation]) -> (r: StartLocation)
    ensures
        free_preferred(placed@, 6).len() >= 2 ==> r == (free_preferred(placed@, 6)[0],
        free_preferred(placed@, 6)[1]),
        free_preferred(placed@, 6).len() < 2 ==> r == (preferred_cell(0), preferred_cell(1)),
{
    let mut values: Vec<(u8, u8)> = Vec::new();
    let mut k: usize = 0;
    while k < 6
        invariant
            k <= 6,
            values@ == free_preferred(placed@, k as int),
        decreases 6 - k,
    {
        let c: (u8, u8) = if k < 5 {
            (0, k as u8)
        } else {
            (1, 0)
        };
        if !is_cell_taken(placed, c) {
            values.push(c);
        }
        k += 1;
    }
    if values.len() >= 2 {
        (values[0], values[1])
    } else {
        ((0, 0), (0, 1))
    }
}

impl Player for FirstChoice {
    fn get_action(&self, game: &Game, player_id: usize) -> Action {
        first_legal_action(game, player_id)
    }

    fn get_starting_position(&self, _game: &Game, player_locations: &[StartLocation]) -> StartLocation {
        first_free_start(player_locations)
    }
}

} // verus!
