use vstd::prelude::*;

use crate::game::{adjacent, on_board, Action, Game};
use crate::tower::{TowerStates, Worker};

verus! {

/// The eight king-move offsets, in the order in which candidates are tried.
pub open spec fn offset(i: int) -> (int, int) {
    if i == 0 {
        (-1, -1)
    } else if i == 1 {
        (0, -1)
    } else if i == 2 {
        (1, -1)
    } else if i == 3 {
        (-1, 0)
    } else if i == 4 {
        (-1, 1)
    } else if i == 5 {
        (0, 1)
    } else if i == 6 {
        (1, 0)
    } else {
        (1, 1)
    }
}

/// Cell `c` moved by offset `i`, as signed coordinates (which may leave the board).
pub open spec fn shifted(c: (u8, u8), i: int) -> (int, int) {
    (c.0 + offset(i).0, c.1 + offset(i).1)
}

/// Signed coordinates that name a cell of the board.
pub open spec fn in_range(c: (int, int)) -> bool {
    0 <= c.0 <= 4 && 0 <= c.1 <= 4
}

pub open spec fn to_cell(c: (int, int)) -> (u8, u8) {
    (c.0 as u8, c.1 as u8)
}

/// The index of the offset that leads from `a` to an adjacent, distinct cell `b`.
pub open spec fn offset_index(a: (u8, u8), b: (u8, u8)) -> int {
    let dx = b.0 - a.0;
    let dy = b.1 - a.1;
    if dx == -1 && dy == -1 {
        0
    } else if dx == 0 && dy == -1 {
        1
    } else if dx == 1 && dy == -1 {
        2
    } else if dx == -1 && dy == 0 {
        3
    } else if dx == -1 && dy == 1 {
        4
    } else if dx == 0 && dy == 1 {
        5
    } else if dx == 1 && dy == 0 {
        6
    } else {
        7
    }
}

/// The cell one offset away, or `None` off the board; never wraps below zero.
pub(crate) fn neighbor(c: (u8, u8), i: usize) -> (r: Option<(u8, u8)>)
    requires
        i < 8,
    ensures
        r == (if in_range(shifted(c, i as int)) {
            Some(to_cell(shifted(c, i as int)))
        } else {
            None
        }),
{
    let (dx, dy): (i16, i16) = if i == 0 {
        (-1, -1)
    } else if i == 1 {
        (0, -1)
    } else if i == 2 {
        (1, -1)
    } else if i == 3 {
        (-1, 0)
    } else if i == 4 {
        (-1, 1)
    } else if i == 5 {
        (0, 1)
    } else if i == 6 {
        (1, 0)
    } else {
        (1, 1)
    };
    let x: i16 = c.0 as i16 + dx;
    let y: i16 = c.1 as i16 + dy;
    if 0 <= x && x <= 4 && 0 <= y && y <= 4 {
        Some((x as u8, y as u8))
    } else {
        None
    }
}


/// Membership in a concatenation is membership in one of its parts.
proof fn lemma_concat_contains(s1: Seq<Action>, s2: Seq<Action>, x: Action)
    ensures
        (s1 + s2).contains(x) <==> (s1.contains(x) || s2.contains(x)),
{
    if s1.contains(x) {
        let k = choose|k: int| 0 <= k < s1.len() && s1[k] == x;
        assert((s1 + s2)[k] == x);
    }
    if s2.contains(x) {
        let k = choose|k: int| 0 <= k < s2.len() && s2[k] == x;
        assert((s1 + s2)[s1.len() + k] == x);
    }
    if (s1 + s2).contains(x) {
        let k = choose|k: int| 0 <= k < (s1 + s2).len() && (s1 + s2)[k] == x;
        if k < s1.len() {
            assert(s1[k] == x);
        } else {
            assert(s2[k - s1.len()] == x);
        }
    }
}

/// Membership after a push is membership before it, or the pushed item.
proof fn lemma_push_contains(s: Seq<Action>, y: Action, x: Action)
    ensures
        s.push(y).contains(x) <==> (s.contains(x) || x == y),
{
    if s.contains(x) {
        let k = choose|k: int| 0 <= k < s.len() && s[k] == x;
        assert(s.push(y)[k] == x);
    }
    if x == y {
        assert(s.push(y)[s.len() as int] == x);
    }
    if s.push(y).contains(x) {
        let k = choose|k: int| 0 <= k < s.push(y).len() && s.push(y)[k] == x;
        if k < s.len() {
            assert(s[k] == x);
        }
    }
}

/// A distinct adjacent cell is reached by its offset index.
proof fn lemma_offset_index(a: (u8, u8), b: (u8, u8))
    requires
        adjacent(a, b),
        a != b,
    ensures
        0 <= offset_index(a, b) < 8,
        shifted(a, offset_index(a, b)) == (b.0 as int, b.1 as int),
        to_cell(shifted(a, offset_index(a, b))) == b,
{
}

impl Game {
    proof fn lemma_builds_sound(self, p: int, w: Worker, m: (u8, u8), j: int, a: Action)
        requires
            j <= 8,
            self.builds_from(p, w, m, j).contains(a),
        ensures
            a.0 == w,
            a.1 == m,
            self.can_build(p, w, m, a.2),
        decreases j,
    {
        if j > 0 {
            let prev = self.builds_from(p, w, m, j - 1);
            let b = shifted(m, j - 1);
            if in_range(b) && self.can_build(p, w, m, to_cell(b)) {
                lemma_push_contains(prev, (w, m, to_cell(b)), a);
                if a != (w, m, to_cell(b)) {
                    self.lemma_builds_sound(p, w, m, j - 1, a);
                }
            } else {
                self.lemma_builds_sound(p, w, m, j - 1, a);
            }
        }
    }

    proof fn lemma_builds_complete(self, p: int, w: Worker, m: (u8, u8), j: int, b: (u8, u8))
        requires
            j <= 8,
            self.can_build(p, w, m, b),
            offset_index(m, b) < j,
        ensures
            self.builds_from(p, w, m, j).contains((w, m, b)),
        decreases j,
    {
        lemma_offset_index(m, b);
        let prev = self.builds_from(p, w, m, j - 1);
        let c = shifted(m, j - 1);
        if offset_index(m, b) == j - 1 {
            lemma_push_contains(prev, (w, m, to_cell(c)), (w, m, b));
        } else {
            self.lemma_builds_complete(p, w, m, j - 1, b);
            if in_range(c) && self.can_build(p, w, m, to_cell(c)) {
                lemma_push_contains(prev, (w, m, to_cell(c)), (w, m, b));
            }
        }
    }

    proof fn lemma_moves_sound(self, p: int, w: Worker, i: int, a: Action)
        requires
            i <= 8,
            self.moves_from(p, w, i).contains(a),
        ensures
            a.0 == w,
            self.is_legal(p, w, a.1, a.2),
        decreases i,
    {
        if i > 0 {
            let prev = self.moves_from(p, w, i - 1);
            let m = shifted(self.worker_at(p, w), i - 1);
            if in_range(m) && self.can_move(p, w, to_cell(m)) {
                let builds = self.builds_from(p, w, to_cell(m), 8);
                lemma_concat_contains(prev, builds, a);
                if prev.contains(a) {
                    self.lemma_moves_sound(p, w, i - 1, a);
                } else {
                    self.lemma_builds_sound(p, w, to_cell(m), 8, a);
                }
            } else {
                self.lemma_moves_sound(p, w, i - 1, a);
            }
        }
    }

    proof fn lemma_moves_complete(self, p: int, w: Worker, i: int, m: (u8, u8), b: (u8, u8))
        requires
            i <= 8,
            self.is_legal(p, w, m, b),
            offset_index(self.worker_at(p, w), m) < i,
        ensures
            self.moves_from(p, w, i).contains((w, m, b)),
        decreases i,
    {
        let base = self.worker_at(p, w);
        lemma_offset_index(base, m);
        let prev = self.moves_from(p, w, i - 1);
        let c = shifted(base, i - 1);
        if offset_index(base, m) == i - 1 {
            lemma_offset_index(m, b);
            self.lemma_builds_complete(p, w, m, 8, b);
            lemma_concat_contains(prev, self.builds_from(p, w, m, 8), (w, m, b));
        } else {
            self.lemma_moves_complete(p, w, i - 1, m, b);
            if in_range(c) && self.can_move(p, w, to_cell(c)) {
                lemma_concat_contains(prev, self.builds_from(p, w, to_cell(c), 8), (w, m, b));
            }
        }
    }

    /// The enumeration holds exactly the legal actions of the player.
    pub proof fn lemma_possible_actions_exact(self, p: int)
        ensures
            forall|a: Action| #[trigger]
                self.possible_actions(p).contains(a) <==> self.is_legal(p, a.0, a.1, a.2),
    {
        assert forall|a: Action| #[trigger]
            self.possible_actions(p).contains(a) <==> self.is_legal(p, a.0, a.1, a.2) by {
            let one = self.moves_from(p, Worker::One, 8);
            let two = self.moves_from(p, Worker::Two, 8);
            lemma_concat_contains(one, two, a);
            if one.contains(a) {
                self.lemma_moves_sound(p, Worker::One, 8, a);
            }
            if two.contains(a) {
                self.lemma_moves_sound(p, Worker::Two, 8, a);
            }
            if self.is_legal(p, a.0, a.1, a.2) {
                lemma_offset_index(self.worker_at(p, a.0), a.1);
                self.lemma_moves_complete(p, a.0, 8, a.1, a.2);
            }
        }
    }
}

impl Game {
    /// Actions of worker `w` of player `p` that move to `m` and build on one of the
    /// first `j` neighbors of `m`, in offset order.
    pub open spec fn builds_from(self, p: int, w: Worker, m: (u8, u8), j: int) -> Seq<Action>
        decreases j,
    {
        if j <= 0 {
            seq![]
        } else {
            let prev = self.builds_from(p, w, m, j - 1);
            let b = shifted(m, j - 1);
            if in_range(b) && self.can_build(p, w, m, to_cell(b)) {
                prev.push((w, m, to_cell(b)))
            } else {
                prev
            }
        }
    }

    /// Actions of worker `w` of player `p` that move to one of the first `i`
    /// neighbors of its cell, in offset order.
    pub open spec fn moves_from(self, p: int, w: Worker, i: int) -> Seq<Action>
        decreases i,
    {
        if i <= 0 {
            seq![]
        } else {
            let prev = self.moves_from(p, w, i - 1);
            let m = shifted(self.worker_at(p, w), i - 1);
            if in_range(m) && self.can_move(p, w, to_cell(m)) {
                prev + self.builds_from(p, w, to_cell(m), 8)
            } else {
                prev
            }
        }
    }

    /// Every legal action of player `p`: worker One first, then worker Two.
    pub open spec fn possible_actions(self, p: int) -> Seq<Action> {
        self.moves_from(p, Worker::One, 8) + self.moves_from(p, Worker::Two, 8)
    }

    fn push_builds(&self, player_id: usize, worker: Worker, m: (u8, u8), out: &mut Vec<Action>)
        requires
            player_id < 3,
        ensures
            final(out)@ == old(out)@ + self.builds_from(player_id as int, worker, m, 8),
    {
        let mut j: usize = 0;
        while j < 8
            invariant
                j <= 8,
                player_id < 3,
                out@ == old(out)@ + self.builds_from(player_id as int, worker, m, j as int),
            decreases 8 - j,
        {
            let ghost before = out@;
            if let Some(b) = neighbor(m, j) {
                if self.is_valid(player_id, worker, m, b, true) {
                    out.push((worker, m, b));
                }
            }
            j += 1;
            assert(out@ =~= old(out)@ + self.builds_from(player_id as int, worker, m, j as int));
        }
    }

    fn push_moves(&self, player_id: usize, worker: Worker, out: &mut Vec<Action>)
        requires
            player_id < 3,
        ensures
            final(out)@ == old(out)@ + self.moves_from(player_id as int, worker, 8),
    {
        let base = if worker == Worker::One {
            self.player_locations[player_id].0
        } else {
            self.player_locations[player_id].1
        };
        let mut i: usize = 0;
        while i < 8
            invariant
                i <= 8,
                player_id < 3,
                base == self.worker_at(player_id as int, worker),
                out@ == old(out)@ + self.moves_from(player_id as int, worker, i as int),
            decreases 8 - i,
        {
            if let Some(m) = neighbor(base, i) {
                if self.can_move_to_square(player_id, worker, m) {
                    self.push_builds(player_id, worker, m, out);
                }
            }
            i += 1;
            assert(out@ =~= old(out)@ + self.moves_from(player_id as int, worker, i as int));
        }
    }

    /// Every legal action of the player, worker One first, each worker's moves and
    /// builds in a fixed neighbor order.
    pub fn list_possible_actions(&self, player_id: usize) -> (r: Vec<Action>)
        requires
            player_id < 3,
        ensures
            r@ == self.possible_actions(player_id as int),
            forall|a: Action|
                r@.contains(a) <==> self.is_legal(player_id as int, a.0, a.1, a.2),
    {
        let mut possible_actions: Vec<Action> = Vec::with_capacity(2 * 8 * 8);
        self.push_moves(player_id, Worker::One, &mut possible_actions);
        self.push_moves(player_id, Worker::Two, &mut possible_actions);
        assert(possible_actions@ =~= self.possible_actions(player_id as int));
        proof {
            self.lemma_possible_actions_exact(player_id as int);
        }
        possible_actions
    }
    /// Whether the player has a legal action that steps onto a Level3 tower.
    pub fn can_win_on_next_turn(&self, player_id: usize) -> (r: bool)
        requires
            player_id < 3,
        ensures
            r == exists|a: Action|
                self.is_legal(player_id as int, a.0, a.1, a.2) && #[trigger] self.tower(a.1)
                    == TowerStates::Level3,
    {
        let actions = self.list_possible_actions(player_id);
        let mut i: usize = 0;
        while i < actions.len()
            invariant
                i <= actions@.len(),
                forall|a: Action|
                    actions@.contains(a) <==> self.is_legal(player_id as int, a.0, a.1, a.2),
                forall|k: int| 0 <= k < i ==> self.tower(#[trigger] actions@[k].1) != TowerStates::Level3,
            decreases actions@.len() - i,
        {
            let (_, m, _) = actions[i];
            assert(actions@.contains(actions@[i as int]));
            if self.board[m.0 as usize][m.1 as usize] == TowerStates::Level3 {
                assert(actions@.contains(actions@[i as int]));
                return true;
            }
            i += 1;
        }
        assert forall|a: Action|
            self.is_legal(player_id as int, a.0, a.1, a.2) implies #[trigger] self.tower(a.1)
            != TowerStates::Level3 by {
            assert(actions@.contains(a));
            let k = choose|k: int| 0 <= k < actions@.len() && actions@[k] == a;
            assert(self.tower(actions@[k].1) != TowerStates::Level3);
        }
        false
    }
}

} // verus!
