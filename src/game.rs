use vstd::prelude::*;

use crate::tower::{height, Status, TowerStates, Worker};

verus! {

/// A turn: which worker moves, where it moves to, and where it then builds.
pub type Action = (Worker, (u8, u8), (u8, u8));

/// The two starting cells of a player's workers.
pub type StartLocation = ((u8, u8), (u8, u8));

/// A cell lies on the 5x5 board.
pub open spec fn on_board(c: (u8, u8)) -> bool {
    c.0 <= 4 && c.1 <= 4
}

/// Two cells are at most one step apart in each axis (a king move, or the same cell).
pub open spec fn adjacent(a: (u8, u8), b: (u8, u8)) -> bool {
    -1 <= a.0 - b.0 <= 1 && -1 <= a.1 - b.1 <= 1
}

/// Chebyshev adjacency, computed without wrapping.
fn within_one(a: (u8, u8), b: (u8, u8)) -> (r: bool)
    ensures
        r == adjacent(a, b),
{
    (a.0 as u16) <= (b.0 as u16) + 1 && (b.0 as u16) <= (a.0 as u16) + 1 && (a.1 as u16) <= (
    b.1 as u16) + 1 && (b.1 as u16) <= (a.1 as u16) + 1
}

/// Cell equality, field by field.
pub(crate) fn same_cell(a: (u8, u8), b: (u8, u8)) -> (r: bool)
    ensures
        r == (a == b),
{
    a.0 == b.0 && a.1 == b.1
}

/// A snapshot of the game: tower heights, worker positions and player statuses.
#[derive(Copy, Clone)]
pub struct Game {
    pub board: [[TowerStates; 5]; 5],
    pub player_locations: [((u8, u8), (u8, u8)); 3],
    pub player_statuses: [Status; 3],
}

impl Game {
    /// The tower on an on-board cell.
    pub open spec fn tower(self, c: (u8, u8)) -> TowerStates {
        self.board[c.0 as int][c.1 as int]
    }

    /// Where worker `w` of player `p` stands.
    pub open spec fn worker_at(self, p: int, w: Worker) -> (u8, u8) {
        if w == Worker::One {
            self.player_locations[p].0
        } else {
            self.player_locations[p].1
        }
    }

    /// Where the other worker of player `p` stands.
    pub open spec fn other_worker(self, p: int, w: Worker) -> (u8, u8) {
        if w == Worker::One {
            self.player_locations[p].1
        } else {
            self.player_locations[p].0
        }
    }

    /// Slot `i` is playing and one of its workers stands on `c`.
    pub open spec fn slot_covers(self, i: int, c: (u8, u8)) -> bool {
        self.player_statuses[i] == Status::Playing && (self.player_locations[i].0 == c
            || self.player_locations[i].1 == c)
    }

    /// A worker of some playing player stands on `c`.
    pub open spec fn occupied(self, c: (u8, u8)) -> bool {
        self.slot_covers(0, c) || self.slot_covers(1, c) || self.slot_covers(2, c)
    }

    /// A worker of a playing player other than `p` stands on `c`.
    pub open spec fn occupied_by_others(self, p: int, c: (u8, u8)) -> bool {
        (p != 0 && self.slot_covers(0, c)) || (p != 1 && self.slot_covers(1, c)) || (p != 2
            && self.slot_covers(2, c))
    }

    /// Worker `w` of player `p` may step onto `m`: both cells on the board, `m` free,
    /// a king move away, at most one level higher, and not capped.
    pub open spec fn can_move(self, p: int, w: Worker, m: (u8, u8)) -> bool {
        let base = self.worker_at(p, w);
        &&& on_board(m)
        &&& on_board(base)
        &&& !self.occupied(m)
        &&& m != base
        &&& adjacent(base, m)
        &&& height(self.tower(m)) <= height(self.tower(base)) + 1
        &&& self.tower(m) != TowerStates::Capped
    }

    /// After worker `w` of player `p` has moved to `m`, it may build on `b`: on the
    /// board, not where the own other worker or another playing player's worker
    /// stands, not on `m`, next to `m`, and not capped. The cell the mover left is free.
    pub open spec fn can_build(self, p: int, w: Worker, m: (u8, u8), b: (u8, u8)) -> bool {
        &&& on_board(b)
        &&& b != self.other_worker(p, w)
        &&& !self.occupied_by_others(p, b)
        &&& b != m
        &&& adjacent(m, b)
        &&& self.tower(b) != TowerStates::Capped
    }

    /// The whole action is legal.
    pub open spec fn is_legal(self, p: int, w: Worker, m: (u8, u8), b: (u8, u8)) -> bool {
        self.can_move(p, w, m) && self.can_build(p, w, m, b)
    }

    /// A playing player other than `p` has a worker at most one step from `pos`.
    pub open spec fn near_other_player(self, p: int, pos: (u8, u8)) -> bool {
        exists|i: int|
            0 <= i < 3 && i != p && self.player_statuses[i] == Status::Playing && (adjacent(
                self.player_locations[i].0,
                pos,
            ) || adjacent(self.player_locations[i].1, pos))
    }

    fn slot_covers_exec(&self, i: usize, c: (u8, u8)) -> (r: bool)
        requires
            i < 3,
        ensures
            r == self.slot_covers(i as int, c),
    {
        self.player_statuses[i] == Status::Playing && (same_cell(self.player_locations[i].0, c)
            || same_cell(self.player_locations[i].1, c))
    }

    pub fn can_move_to_square(&self, player_id: usize, worker: Worker, movement: (u8, u8)) -> (r:
        bool)
        requires
            player_id < 3,
        ensures
            r == self.can_move(player_id as int, worker, movement),
    {
        let base = if worker == Worker::One {
            self.player_locations[player_id].0
        } else {
            self.player_locations[player_id].1
        };
        if !(movement.0 <= 4 && movement.1 <= 4 && base.0 <= 4 && base.1 <= 4) {
            return false;
        }
        if self.slot_covers_exec(0, movement) || self.slot_covers_exec(1, movement)
            || self.slot_covers_exec(2, movement) {
            return false;
        }
        let from = self.board[base.0 as usize][base.1 as usize];
        let to = self.board[movement.0 as usize][movement.1 as usize];
        !same_cell(movement, base) && within_one(base, movement) && (to.to_int() as u16) <= (
        from.to_int() as u16) + 1 && to != TowerStates::Capped
    }

    /// Checks an action. With `checked_movement` the caller vouches for the move and
    /// only the build is checked.
    pub fn is_valid(
        &self,
        player_id: usize,
        worker: Worker,
        movement: (u8, u8),
        build: (u8, u8),
        checked_movement: bool,
    ) -> (r: bool)
        requires
            player_id < 3,
        ensures
            r == ((checked_movement || self.can_move(player_id as int, worker, movement))
                && self.can_build(player_id as int, worker, movement, build)),
    {
        let (old_w1, old_w2) = self.player_locations[player_id];
        if !(build.0 <= 4 && build.1 <= 4) {
            return false;
        }
        let other = if worker == Worker::One {
            old_w2
        } else {
            old_w1
        };
        if same_cell(build, other) || same_cell(build, movement) || !within_one(movement, build) {
            return false;
        }
        if (player_id != 0 && self.slot_covers_exec(0, build)) || (player_id != 1
            && self.slot_covers_exec(1, build)) || (player_id != 2 && self.slot_covers_exec(
            2,
            build,
        )) {
            return false;
        }
        if self.board[build.0 as usize][build.1 as usize] == TowerStates::Capped {
            return false;
        }
        checked_movement || self.can_move_to_square(player_id, worker, movement)
    }

    /// Whether a worker of another playing player stands at most one step from `pos`.
    pub fn is_near_player(&self, player_id: usize, pos: (u8, u8)) -> (r: bool)
        ensures
            r == self.near_other_player(player_id as int, pos),
    {
        let mut i: usize = 0;
        while i < 3
            invariant
                i <= 3,
                forall|j: int|
                    0 <= j < i ==> !(j != player_id as int && self.player_statuses[j]
                        == Status::Playing && (adjacent(self.player_locations[j].0, pos)
                        || adjacent(self.player_locations[j].1, pos))),
            decreases 3 - i,
        {
            let (w1, w2) = self.player_locations[i];
            if i != player_id && self.player_statuses[i] == Status::Playing && (within_one(w1, pos)
                || within_one(w2, pos)) {
                return true;
            }
            i += 1;
        }
        false
    }
}

} // verus!
