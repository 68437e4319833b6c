use vstd::prelude::*;

use crate::actions::{in_range, neighbor, shifted, to_cell};
use crate::game::{on_board, same_cell, Game, StartLocation};
use crate::tower::{height, TowerStates, Worker};

verus! {

/// A heuristic that scores a legal action; a weighting AI combines several.
pub trait ActionScorer {
    /// The score, as a number.
    spec fn score_spec(
        &self,
        game: Game,
        player_id: int,
        worker: Worker,
        movement: (u8, u8),
        build: (u8, u8),
        is_near_player: bool,
        will_be_near_player: bool,
        will_build_near_player: bool,
    ) -> int;

    fn get_score(
        &self,
        game: &Game,
        player_id: usize,
        worker: Worker,
        movement: (u8, u8),
        build: (u8, u8),
        is_near_player: bool,
        will_be_near_player: bool,
        will_build_near_player: bool,
    ) -> (r: i32)
        requires
            player_id < 3,
            game.is_legal(player_id as int, worker, movement, build),
        ensures
            r == self.score_spec(
                *game,
                player_id as int,
                worker,
                movement,
                build,
                is_near_player,
                will_be_near_player,
                will_build_near_player,
            ),
    ;
}

/// Prefers moves that climb: the height gained by the move (negative when it descends).
pub struct PrioritizeClimbing {}

impl PrioritizeClimbing {
    pub fn new() -> Self {
        PrioritizeClimbing {  }
    }
}

impl ActionScorer for PrioritizeClimbing {
    open spec fn score_spec(
        &self,
        game: Game,
        player_id: int,
        worker: Worker,
        movement: (u8, u8),
        build: (u8, u8),
        is_near_player: bool,
        will_be_near_player: bool,
        will_build_near_player: bool,
    ) -> int {
        height(game.tower(movement)) - height(game.tower(game.worker_at(player_id, worker)))
    }

    fn get_score(
        &self,
        game: &Game,
        player_id: usize,
        worker: Worker,
        movement: (u8, u8),
        _build: (u8, u8),
        _is_near_player: bool,
        _will_be_near_player: bool,
        _will_build_near_player: bool,
    ) -> (r: i32) {
        let (w1, w2) = game.player_locations[player_id];
        let old_pos = if worker == Worker::One {
            w1
        } else {
            w2
        };
        game.board[movement.0 as usize][movement.1 as usize].to_int() as i32 - game.board[old_pos.0
            as usize][old_pos.1 as usize].to_int() as i32
    }
}

/// Rewards capping a Level3 tower next to an opponent, and discourages building
/// next to an opponent otherwise.
pub struct PrioritizeCapping {}

impl PrioritizeCapping {
    pub fn new() -> Self {
        PrioritizeCapping {  }
    }
}

impl ActionScorer for PrioritizeCapping {
    open spec fn score_spec(
        &self,
        game: Game,
        player_id: int,
        worker: Worker,
        movement: (u8, u8),
        build: (u8, u8),
        is_near_player: bool,
        will_be_near_player: bool,
        will_build_near_player: bool,
    ) -> int {
        if game.tower(build) == TowerStates::Level3 {
            if will_build_near_player {
                1
            } else {
                -1
            }
        } else if will_build_near_player {
            -1
        } else {
            0
        }
    }

    fn get_score(
        &self,
        game: &Game,
        _player_id: usize,
        _worker: Worker,
        _movement: (u8, u8),
        b: (u8, u8),
        _is_near_player: bool,
        _will_be_near_player: bool,
        will_build_near_player: bool,
    ) -> (r: i32) {
        if game.board[b.0 as usize][b.1 as usize] == TowerStates::Level3 {
            if will_build_near_player {
                1
            } else {
                -1
            }
        } else if will_build_near_player {
            -1
        } else {
            0
        }
    }
}

/// The highest tower among the first `k` neighbors of `b` that are on the board and
/// not under either of the mover's workers (after the move); 0 when there is none.
pub open spec fn highest_free_neighbor(
    game: Game,
    w1: (u8, u8),
    w2: (u8, u8),
    b: (u8, u8),
    k: int,
) -> nat
    decreases k,
{
    if k <= 0 {
        0
    } else {
        let prev = highest_free_neighbor(game, w1, w2, b, k - 1);
        let s = shifted(b, k - 1);
        if in_range(s) && to_cell(s) != w1 && to_cell(s) != w2 && height(game.tower(to_cell(s)))
            > prev {
            height(game.tower(to_cell(s)))
        } else {
            prev
        }
    }
}

/// The score of building on a tower `diff` levels above its highest free neighbor.
pub open spec fn blocking_score(diff: int) -> int {
    if diff == 3 || diff == 2 {
        -2
    } else if diff == 1 {
        2
    } else if diff == 0 {
        -3
    } else if diff == -1 {
        -2
    } else {
        -1
    }
}

/// Judges builds next to an opponent by how they compare with the surrounding
/// towers: building one level above every free neighbor blocks access.
pub struct PrioritizeBlocking {}

impl PrioritizeBlocking {
    pub fn new() -> Self {
        PrioritizeBlocking {  }
    }
}

impl ActionScorer for PrioritizeBlocking {
    open spec fn score_spec(
        &self,
        game: Game,
        player_id: int,
        worker: Worker,
        movement: (u8, u8),
        build: (u8, u8),
        is_near_player: bool,
        will_be_near_player: bool,
        will_build_near_player: bool,
    ) -> int {
        if will_build_near_player {
            let pair = game.moved_pair(player_id, worker, movement);
            blocking_score(
                height(game.tower(build)) - highest_free_neighbor(game, pair.0, pair.1, build, 8),
            )
        } else {
            0
        }
    }

    fn get_score(
        &self,
        game: &Game,
        player_id: usize,
        worker: Worker,
        movement: (u8, u8),
        b: (u8, u8),
        _is_near_player: bool,
        _will_be_near_player: bool,
        will_build_near_player: bool,
    ) -> (r: i32) {
        if !will_build_near_player {
            return 0;
        }
        let (mut w1, mut w2) = game.player_locations[player_id];
        if worker == Worker::One {
            w1 = movement;
        } else {
            w2 = movement;
        }
        let mut max_near_height: u8 = 0;
        let mut k: usize = 0;
        while k < 8
            invariant
                k <= 8,
                on_board(b),
                max_near_height == highest_free_neighbor(*game, w1, w2, b, k as int),
                max_near_height <= 4,
            decreases 8 - k,
        {
            if let Some(s) = neighbor(b, k) {
                if !same_cell(s, w1) && !same_cell(s, w2) {
                    let h = game.board[s.0 as usize][s.1 as usize].to_int();
                    if h > max_near_height {
                        max_near_height = h;
                    }
                }
            }
            k += 1;
        }
        let current_height = game.board[b.0 as usize][b.1 as usize].to_int();
        let diff: i32 = current_height as i32 - max_near_height as i32;
        if diff == 3 || diff == 2 {
            -2
        } else if diff == 1 {
            2
        } else if diff == 0 {
            -3
        } else if diff == -1 {
            -2
        } else {
            -1
        }
    }
}

/// Prefers moves that end next to an opponent, and moves that keep a worker there.
pub struct PrioritizeNextToPlayer {}

impl PrioritizeNextToPlayer {
    pub fn new() -> Self {
        PrioritizeNextToPlayer {  }
    }
}

impl ActionScorer for PrioritizeNextToPlayer {
    open spec fn score_spec(
        &self,
        game: Game,
        player_id: int,
        worker: Worker,
        movement: (u8, u8),
        build: (u8, u8),
        is_near_player: bool,
        will_be_near_player: bool,
        will_build_near_player: bool,
    ) -> int {
        if is_near_player {
            if will_be_near_player {
                0
            } else {
                -1
            }
        } else if will_be_near_player {
            1
        } else {
            -1
        }
    }

    fn get_score(
        &self,
        _game: &Game,
        _player_id: usize,
        _worker: Worker,
        _m: (u8, u8),
        _build: (u8, u8),
        is_near_player: bool,
        will_be_near_player: bool,
        _will_build_near_player: bool,
    ) -> (r: i32) {
        if is_near_player {
            if will_be_near_player {
                0
            } else {
                -1
            }
        } else if will_be_near_player {
            1
        } else {
            -1
        }
    }
}

/// The king-move distance between two cells.
pub open spec fn chebyshev(a: (u8, u8), b: (u8, u8)) -> int {
    let dx = if a.0 >= b.0 { a.0 - b.0 } else { b.0 - a.0 };
    let dy = if a.1 >= b.1 { a.1 - b.1 } else { b.1 - a.1 };
    if dx >= dy { dx } else { dy }
}

/// Absolute value.
pub open spec fn abs(x: int) -> int {
    if x >= 0 { x } else { -x }
}

/// Sum of the distances from `s` to both workers of the first `n` placed pairs.
pub open spec fn distance_sum(placed: Seq<StartLocation>, s: (u8, u8), n: int) -> int
    decreases n,
{
    if n <= 0 {
        0
    } else {
        distance_sum(placed, s, n - 1) + chebyshev(placed[n - 1].0, s) + chebyshev(placed[n - 1].1, s)
    }
}

fn chebyshev_exec(a: (u8, u8), b: (u8, u8)) -> (r: u8)
    ensures
        r == chebyshev(a, b),
{
    let dx = if a.0 >= b.0 { a.0 - b.0 } else { b.0 - a.0 };
    let dy = if a.1 >= b.1 { a.1 - b.1 } else { b.1 - a.1 };
    if dx >= dy { dx } else { dy }
}

/// A heuristic that scores a candidate starting cell, given the pairs placed so far
/// and, for the second worker, the cell chosen for the first.
pub trait StartScorer {
    /// The score, as a number.
    spec fn score_spec(
        &self,
        player_locations: Seq<StartLocation>,
        start_location: (u8, u8),
        other_starting_location: Option<(u8, u8)>,
    ) -> int;

    fn get_score(
        &self,
        player_locations: &[StartLocation],
        start_location: (u8, u8),
        other_starting_location: Option<(u8, u8)>,
    ) -> (r: i32)
        requires
            player_locations@.len() <= 3,
            on_board(start_location),
            other_starting_location is Some ==> on_board(other_starting_location->0),
        ensures
            r == self.score_spec(player_locations@, start_location, other_starting_location),
    ;
}

/// Prefers cells close to the workers already placed: minus the sum of the
/// distances to them.
pub struct StartNearPlayers {}

impl StartNearPlayers {
    pub fn new() -> Self {
        StartNearPlayers {  }
    }
}

impl StartScorer for StartNearPlayers {
    open spec fn score_spec(
        &self,
        player_locations: Seq<StartLocation>,
        start_location: (u8, u8),
        other_starting_location: Option<(u8, u8)>,
    ) -> int {
        -distance_sum(player_locations, start_location, player_locations.len() as int)
    }

    fn get_score(
        &self,
        player_locations: &[StartLocation],
        s: (u8, u8),
        _other_starting_location: Option<(u8, u8)>,
    ) -> (r: i32) {
        let mut total: i32 = 0;
        let mut k: usize = 0;
        while k < player_locations.len()
            invariant
                k <= player_locations@.len(),
                player_locations@.len() <= 3,
                total == distance_sum(player_locations@, s, k as int),
                0 <= total <= 510 * k,
            decreases player_locations@.len() - k,
        {
            let (w1, w2) = player_locations[k];
            total = total + chebyshev_exec(w1, s) as i32 + chebyshev_exec(w2, s) as i32;
            k += 1;
        }
        -total
    }
}

/// Prefers central cells: minus the distance of the larger of the two coordinates
/// from the middle row and column.
pub struct StartNearMiddle {}

impl StartNearMiddle {
    pub fn new() -> Self {
        StartNearMiddle {  }
    }
}

impl StartScorer for StartNearMiddle {
    open spec fn score_spec(
        &self,
        player_locations: Seq<StartLocation>,
        start_location: (u8, u8),
        other_starting_location: Option<(u8, u8)>,
    ) -> int {
        let dx = start_location.0 - 2;
        let dy = start_location.1 - 2;
        -abs(if dx >= dy { dx } else { dy })
    }

    fn get_score(
        &self,
        _player_locations: &[StartLocation],
        s: (u8, u8),
        _other_starting_location: Option<(u8, u8)>,
    ) -> (r: i32) {
        let dx: i32 = s.0 as i32 - 2;
        let dy: i32 = s.1 as i32 - 2;
        let larger = if dx >= dy { dx } else { dy };
        if larger >= 0 { -larger } else { larger }
    }
}

/// Spreads a player's workers: for the second worker, how far the candidate lies
/// from the first worker's row, taking the larger of the two coordinate offsets
/// against that row number; 0 for the first worker.
pub struct StartAwayFromOtherWorker {}

impl StartAwayFromOtherWorker {
    pub fn new() -> Self {
        StartAwayFromOtherWorker {  }
    }
}

impl StartScorer for StartAwayFromOtherWorker {
    open spec fn score_spec(
        &self,
        player_locations: Seq<StartLocation>,
        start_location: (u8, u8),
        other_starting_location: Option<(u8, u8)>,
    ) -> int {
        match other_starting_location {
            Some(ow) => {
                let dx = start_location.0 - ow.0;
                let dy = start_location.1 - ow.0;
                abs(if dx >= dy { dx } else { dy })
            },
            None => 0,
        }
    }

    fn get_score(
        &self,
        _player_locations: &[StartLocation],
        s: (u8, u8),
        other_starting_location: Option<(u8, u8)>,
    ) -> (r: i32) {
        match other_starting_location {
            Some(ow) => {
                let dx: i32 = s.0 as i32 - ow.0 as i32;
                let dy: i32 = s.1 as i32 - ow.0 as i32;
                let larger = if dx >= dy { dx } else { dy };
                if larger >= 0 { larger } else { -larger }
            },
            None => 0,
        }
    }
}

} // verus!
