use vstd::prelude::*;

use crate::game::{on_board, same_cell, Action, Game, StartLocation};
use crate::tower::{height, raised, Status, TowerStates, Worker};

verus! {

/// What became of an action handed to the engine.
#[derive(Debug, PartialEq, Eq, Structural, Copy, Clone)]
pub enum TurnOutcome {
    /// The mover stepped onto a Level3 tower and wins; nothing was built.
    Won,
    /// The move and the build were applied.
    Played,
    /// The action was illegal and the player is out.
    Eliminated,
}

/// How many times a strategy may propose a starting position before its slot is
/// left out of the game.
pub const MAX_PLACEMENT_ATTEMPTS: u32 = 1000;

/// Sum of the heights of one board row.
pub open spec fn row_total(row: [TowerStates; 5]) -> nat {
    height(row[0]) + height(row[1]) + height(row[2]) + height(row[3]) + height(row[4])
}

/// A proposed starting pair is on the board, uses two cells, and shares no cell with
/// any pair placed before.
pub open spec fn start_ok(placed: Seq<StartLocation>, s: StartLocation) -> bool {
    &&& on_board(s.0)
    &&& on_board(s.1)
    &&& s.0 != s.1
    &&& forall|k: int| 0 <= k < placed.len() ==> #[trigger] pairs_disjoint(s, placed[k])
}

/// No cell of one pair is a cell of the other.
pub open spec fn pairs_disjoint(a: StartLocation, b: StartLocation) -> bool {
    a.0 != b.0 && a.0 != b.1 && a.1 != b.0 && a.1 != b.1
}

impl Game {
    /// Sum of all tower heights; each build adds one.
    pub open spec fn total_height(self) -> nat {
        row_total(self.board[0]) + row_total(self.board[1]) + row_total(self.board[2])
            + row_total(self.board[3]) + row_total(self.board[4])
    }

    /// The occupancy invariant: each playing player's workers stand on two distinct
    /// cells of the board, and no cell holds workers of two playing players.
    pub open spec fn well_formed(self) -> bool {
        &&& forall|i: int|
            0 <= i < 3 && #[trigger] self.player_statuses[i] == Status::Playing ==> on_board(
                self.player_locations[i].0,
            ) && on_board(self.player_locations[i].1) && self.player_locations[i].0
                != self.player_locations[i].1
        &&& forall|i: int, j: int|
            0 <= i < 3 && 0 <= j < 3 && i != j && #[trigger] self.player_statuses[i]
                == Status::Playing && #[trigger] self.player_statuses[j] == Status::Playing
                ==> pairs_disjoint(self.player_locations[i], self.player_locations[j])
    }

    /// Number of slots still playing.
    pub open spec fn alive_count(self) -> nat {
        (if self.player_statuses[0] == Status::Playing { 1nat } else { 0nat }) + (
        if self.player_statuses[1] == Status::Playing { 1nat } else { 0nat }) + (
        if self.player_statuses[2] == Status::Playing { 1nat } else { 0nat })
    }

    /// The worker pair of player `p` after worker `w` moved to `m`.
    pub open spec fn moved_pair(self, p: int, w: Worker, m: (u8, u8)) -> ((u8, u8), (u8, u8)) {
        if w == Worker::One {
            (m, self.player_locations[p].1)
        } else {
            (self.player_locations[p].0, m)
        }
    }

    /// Raises the tower on `build` by one level.
    fn raise_tower(&mut self, build: (u8, u8))
        requires
            on_board(build),
            old(self).tower(build) != TowerStates::Capped,
        ensures
            final(self).player_statuses == old(self).player_statuses,
            final(self).player_locations == old(self).player_locations,
            forall|x: int, y: int|
                0 <= x < 5 && 0 <= y < 5 ==> #[trigger] final(self).board[x][y] == (if x
                    == build.0 && y == build.1 {
                    raised(old(self).board[x][y])->0
                } else {
                    old(self).board[x][y]
                }),
            final(self).total_height() == old(self).total_height() + 1,
    {
        let bx = build.0 as usize;
        let by = build.1 as usize;
        let old_row = self.board[bx];
        let mut row = old_row;
        match row[by].increase() {
            Some(new) => {
                row[by] = new;
            },
            None => {},
        }
        assert(row@ == old_row@.update(by as int, raised(old_row[by as int])->0));
        assert(row_total(row) == row_total(old_row) + 1);
        self.board[bx] = row;
        assert(self.board@ == old(self).board@.update(bx as int, row));
        assert forall|x: int, y: int| 0 <= x < 5 && 0 <= y < 5 implies #[trigger] self.board[x][y]
            == (if x == build.0 && y == build.1 {
            raised(old(self).board[x][y])->0
        } else {
            old(self).board[x][y]
        }) by {
            if x == bx {
                assert(self.board[x] == row);
            } else {
                assert(self.board[x] == old(self).board[x]);
            }
        }
    }

    /// Applies one action of player `player_id`. An illegal action eliminates the
    /// player and changes nothing else; a move onto a Level3 tower wins and changes
    /// nothing; any other legal action moves the worker and raises the build cell.
    pub fn apply_action(&mut self, player_id: usize, action: Action) -> (r: TurnOutcome)
        requires
            player_id < 3,
        ensures
            ({
                let p = player_id as int;
                let (w, m, b) = action;
                &&& !old(self).is_legal(p, w, m, b) ==> {
                    &&& r == TurnOutcome::Eliminated
                    &&& final(self).board == old(self).board
                    &&& final(self).player_locations == old(self).player_locations
                    &&& final(self).player_statuses@ == old(self).player_statuses@.update(
                        p,
                        Status::Dead,
                    )
                }
                &&& old(self).is_legal(p, w, m, b) && old(self).tower(m) == TowerStates::Level3
                    ==> r == TurnOutcome::Won && *final(self) == *old(self)
                &&& old(self).is_legal(p, w, m, b) && old(self).tower(m) != TowerStates::Level3
                    ==> {
                    &&& r == TurnOutcome::Played
                    &&& final(self).player_statuses == old(self).player_statuses
                    &&& final(self).player_locations@ == old(self).player_locations@.update(
                        p,
                        old(self).moved_pair(p, w, m),
                    )
                    &&& forall|x: int, y: int|
                        0 <= x < 5 && 0 <= y < 5 ==> #[trigger] final(self).board[x][y] == (
                        if x == b.0 && y == b.1 {
                            raised(old(self).board[x][y])->0
                        } else {
                            old(self).board[x][y]
                        })
                    &&& final(self).total_height() == old(self).total_height() + 1
                }
            }),
            old(self).well_formed() ==> final(self).well_formed(),
    {
        let (worker, movement, build) = action;
        if !self.is_valid(player_id, worker, movement, build, false) {
            self.player_statuses[player_id] = Status::Dead;
            return TurnOutcome::Eliminated;
        }
        if self.board[movement.0 as usize][movement.1 as usize] == TowerStates::Level3 {
            return TurnOutcome::Won;
        }
        let (w1, w2) = self.player_locations[player_id];
        if worker == Worker::One {
            self.player_locations[player_id] = (movement, w2);
        } else {
            self.player_locations[player_id] = (w1, movement);
        }
        self.raise_tower(build);
        TurnOutcome::Played
    }
}

/// A strategy that plays one slot: it proposes starting cells and actions. The
/// engine checks everything it proposes.
pub trait Player {
    fn get_action(&self, game: &Game, player_id: usize) -> Action
        requires
            player_id < 3,
    ;

    fn get_starting_position(&self, game: &Game, player_locations: &[StartLocation]) -> StartLocation;
}

/// Whether `start` may be accepted after the pairs in `placed`.
pub fn is_valid_start(placed: &[StartLocation], start: StartLocation) -> (r: bool)
    ensures
        r == start_ok(placed@, start),
{
    let (w1, w2) = start;
    if !(w1.0 <= 4 && w1.1 <= 4 && w2.0 <= 4 && w2.1 <= 4) || same_cell(w1, w2) {
        return false;
    }
    let mut k: usize = 0;
    while k < placed.len()
        invariant
            k <= placed@.len(),
            start == (w1, w2),
            on_board(w1) && on_board(w2) && w1 != w2,
            forall|j: int| 0 <= j < k ==> #[trigger] pairs_disjoint(start, placed@[j]),
        decreases placed@.len() - k,
    {
        let (v1, v2) = placed[k];
        assert(placed@[k as int] == (v1, v2));
        if same_cell(w1, v1) || same_cell(w1, v2) || same_cell(w2, v1) || same_cell(w2, v2) {
            assert(!pairs_disjoint(start, placed@[k as int]));
            return false;
        }
        assert(pairs_disjoint(start, placed@[k as int]));
        k += 1;
    }
    true
}

/// The first `n` slots hold the occupancy invariant among themselves, and each of
/// them that plays stands on a pair recorded in `placed`.
spec fn placement_ok(game: Game, placed: Seq<StartLocation>, n: int) -> bool {
    &&& forall|j: int|
        0 <= j < n && #[trigger] game.player_statuses[j] == Status::Playing ==> on_board(
            game.player_locations[j].0,
        ) && on_board(game.player_locations[j].1) && game.player_locations[j].0
            != game.player_locations[j].1 && placed.contains(game.player_locations[j])
    &&& forall|i: int, j: int|
        0 <= i < n && 0 <= j < n && i != j && #[trigger] game.player_statuses[i]
            == Status::Playing && #[trigger] game.player_statuses[j] == Status::Playing
            ==> pairs_disjoint(game.player_locations[i], game.player_locations[j])
}

/// The height sum of a board never exceeds four per cell.
proof fn lemma_total_height_bound(g: Game)
    ensures
        g.total_height() <= 100,
{
}

/// Runs one game. Each slot with a strategy places its two workers (a slot whose
/// strategy finds no acceptable pair within the attempt limit sits the game out),
/// then the playing slots act in turn order until one steps onto a Level3 tower,
/// which is returned, or every slot has been eliminated, which gives `None`.
pub fn main_loop<P: Player>(player_controls: [Option<&P>; 3]) -> (r: Option<usize>)
    ensures
        r is Some ==> r->0 < 3 && player_controls[r->0 as int] is Some,
{
    let mut player_statuses: [Status; 3] = [Status::Dead; 3];
    let mut i: usize = 0;
    while i < 3
        invariant
            i <= 3,
            forall|j: int|
                0 <= j < 3 && #[trigger] player_statuses[j] == Status::Playing ==> j < i
                    && player_controls[j] is Some,
        decreases 3 - i,
    {
        if player_controls[i].is_some() {
            player_statuses[i] = Status::Playing;
        }
        i += 1;
    }
    let mut game = Game {
        board: [[TowerStates::Empty; 5]; 5],
        player_locations: [((17, 17), (17, 17)); 3],
        player_statuses,
    };
    let mut start_locations: Vec<StartLocation> = Vec::new();
    let mut slot: usize = 0;
    while slot < 3
        invariant
            slot <= 3,
            forall|j: int|
                0 <= j < 3 && #[trigger] game.player_statuses[j] == Status::Playing
                    ==> player_controls[j] is Some,
            placement_ok(game, start_locations@, slot as int),
        decreases 3 - slot,
    {
        if let Some(player) = player_controls[slot] {
            let mut attempts: u32 = 0;
            let mut placed = false;
            let ghost before = game;
            let ghost placed_before = start_locations@;
            while !placed && attempts < MAX_PLACEMENT_ATTEMPTS
                invariant
                    slot < 3,
                    attempts <= MAX_PLACEMENT_ATTEMPTS,
                    forall|j: int|
                        0 <= j < 3 && #[trigger] game.player_statuses[j] == Status::Playing
                            ==> player_controls[j] is Some,
                    placement_ok(before, placed_before, slot as int),
                    !placed ==> game == before && start_locations@ == placed_before,
                    placed ==> placement_ok(game, start_locations@, slot + 1),
                    game.player_statuses == before.player_statuses,
                decreases MAX_PLACEMENT_ATTEMPTS - attempts,
            {
                let start = player.get_starting_position(&game, start_locations.as_slice());
                if is_valid_start(start_locations.as_slice(), start) {
                    start_locations.push(start);
                    game.player_locations[slot] = start;
                    placed = true;
                    proof {
                        assert(start_locations@.contains(start_locations@.last()));
                        assert forall|j: int|
                            0 <= j < slot && #[trigger] game.player_statuses[j] == Status::Playing
                            implies start_locations@.contains(game.player_locations[j]) by {
                            let k = choose|k: int|
                                0 <= k < placed_before.len() && placed_before[k]
                                    == before.player_locations[j];
                            assert(start_locations@[k] == game.player_locations[j]);
                        }
                        assert forall|j: int|
                            0 <= j < slot && #[trigger] game.player_statuses[j] == Status::Playing
                            implies pairs_disjoint(start, game.player_locations[j]) by {
                            let k = choose|k: int|
                                0 <= k < placed_before.len() && placed_before[k]
                                    == before.player_locations[j];
                            assert(pairs_disjoint(start, placed_before[k]));
                        }
                    }
                }
                attempts += 1;
            }
            if !placed {
                game.player_statuses[slot] = Status::Dead;
            }
        }
        slot += 1;
    }
    while game.player_statuses[0] == Status::Playing || game.player_statuses[1] == Status::Playing
        || game.player_statuses[2] == Status::Playing
        invariant
            game.well_formed(),
            forall|j: int|
                0 <= j < 3 && #[trigger] game.player_statuses[j] == Status::Playing
                    ==> player_controls[j] is Some,
        decreases 4 * (100 - game.total_height()) + game.alive_count(),
    {
        proof {
            lemma_total_height_bound(game);
        }
        let ghost round_start = game;
        let ghost start_measure: int = 4 * (100 - game.total_height()) + game.alive_count();
        let mut acted = false;
        let mut slot: usize = 0;
        while slot < 3
            invariant
                slot <= 3,
                start_measure == 4 * (100 - round_start.total_height()) + round_start.alive_count(),
                round_start.total_height() <= 100,
                game.total_height() <= 100,
                4 * (100 - game.total_height()) + game.alive_count() <= start_measure,
                acted ==> 4 * (100 - game.total_height()) + game.alive_count() < start_measure,
                !acted ==> game == round_start,
                game.well_formed(),
                !acted ==> forall|j: int|
                    0 <= j < slot ==> #[trigger] round_start.player_statuses[j] != Status::Playing,
                forall|j: int|
                    0 <= j < 3 && #[trigger] game.player_statuses[j] == Status::Playing
                        ==> player_controls[j] is Some,
            decreases 3 - slot,
        {
            if game.player_statuses[slot] == Status::Playing {
                if let Some(player) = player_controls[slot] {
                    let action = player.get_action(&game, slot);
                    let outcome = game.apply_action(slot, action);
                    if outcome == TurnOutcome::Won {
                        return Some(slot);
                    }
                    proof {
                        lemma_total_height_bound(game);
                    }
                    acted = true;
                }
            }
            slot += 1;
        }
    }
    None
}

} // verus!
