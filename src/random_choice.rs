use rand::seq::SliceRandom;
use vstd::prelude::*;

use crate::engine::Player;
use crate::first_choice::{first_free_start, placeholder_action};
use crate::game::{Action, Game, StartLocation};
use crate::tower::Worker;

verus! {

/// Relies on rand's `SliceRandom::shuffle` with the thread-local generator: it
/// reorders the items by swaps, so the result holds the same items, in some order.
/// The generator fails (and panics) only when the system's entropy source does,
/// which no argument can bring about.
#[verifier::external_body]
fn shuffle_actions(actions: &mut Vec<Action>)
    ensures
        final(actions)@.len() == old(actions)@.len(),
        final(actions)@.to_multiset() == old(actions)@.to_multiset(),
{
    actions.shuffle(&mut rand::thread_rng());
}

/// A strategy that plays a legal action picked at random and takes the first free
/// preferred cells at the start.
pub struct RandomChoice {}

impl RandomChoice {
    pub fn new() -> Self {
        RandomChoice {  }
    }
}

/// Some legal action of the player, whichever the shuffle puts first, or the
/// placeholder when there is none.
pub fn random_legal_action(game: &Game, player_id: usize) -> (r: Action)
    requires
        player_id < 3,
    ensures
        game.possible_actions(player_id as int).len() > 0 ==> game.possible_actions(
            player_id as int,
        ).contains(r),
        game.possible_actions(player_id as int).len() > 0 ==> game.is_legal(
            player_id as int,
            r.0,
            r.1,
            r.2,
        ),
        game.possible_actions(player_id as int).len() == 0 ==> r == placeholder_action(),
{
    let mut possible_actions = game.list_possible_actions(player_id);
    if possible_actions.len() > 0 {
        let ghost before = possible_actions@;
        shuffle_actions(&mut possible_actions);
        let r = possible_actions[0];
        proof {
            before.to_multiset_ensures();
            possible_actions@.to_multiset_ensures();
            assert(possible_actions@[0] == r);
            assert(possible_actions@.contains(r));
            assert(possible_actions@.to_multiset().count(r) > 0);
            assert(before.to_multiset().count(r) > 0);
            assert(before.contains(r));
        }
        r
    } else {
        (Worker::One, (0, 0), (0, 0))
    }
}

impl Player for RandomChoice {
    fn get_action(&self, game: &Game, player_id: usize) -> Action {
        random_legal_action(game, player_id)
    }

    fn get_starting_position(&self, _game: &Game, player_locations: &[StartLocation]) -> StartLocation {
        first_free_start(player_locations)
    }
}

} // verus!
