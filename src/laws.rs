use vstd::prelude::*;

use crate::first_choice::placeholder_action;
use crate::game::{Action, Game};
use crate::tower::Worker;

verus! {

/// Validation and enumeration are functions of the snapshot alone: two equal
/// snapshots give the same verdict on every action and the same list of actions.
pub proof fn lemma_rules_are_pure(g1: Game, g2: Game, p: int, w: Worker, m: (u8, u8), b: (u8, u8))
    requires
        g1 == g2,
    ensures
        g1.is_legal(p, w, m, b) == g2.is_legal(p, w, m, b),
        g1.can_move(p, w, m) == g2.can_move(p, w, m),
        g1.possible_actions(p) == g2.possible_actions(p),
        g1.near_other_player(p, m) == g2.near_other_player(p, m),
{
}

/// Every listed action passes validation, and every action that passes validation
/// is listed: the enumeration has no false positives and no false negatives.
pub proof fn lemma_enumeration_round_trip(g: Game, p: int, a: Action)
    ensures
        g.possible_actions(p).contains(a) <==> g.is_legal(p, a.0, a.1, a.2),
{
    g.lemma_possible_actions_exact(p);
}

/// The placeholder that a strategy without a legal action hands in is rejected in
/// every position, so handing it in eliminates the player.
pub proof fn lemma_placeholder_is_illegal(g: Game, p: int)
    ensures
        !g.is_legal(p, placeholder_action().0, placeholder_action().1, placeholder_action().2),
{
}

} // verus!
