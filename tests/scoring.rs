use rust_santorini::{
    get_max_height, get_total_height, squares_movable_to, ActionScorer, Game, PrioritizeBlocking,
    PrioritizeCapping, PrioritizeClimbing, PrioritizeNextToPlayer, StartAwayFromOtherWorker,
    StartNearMiddle, StartNearPlayers, StartScorer, Status, TowerStates, Worker,
};

const TSE: TowerStates = TowerStates::Empty;
const TS1: TowerStates = TowerStates::Level1;

fn lone(w1: (u8, u8), w2: (u8, u8)) -> Game {
    Game {
        board: [[TowerStates::Empty; 5]; 5],
        player_locations: [(w1, w2), ((17, 17), (17, 17)), ((17, 17), (17, 17))],
        player_statuses: [Status::Playing, Status::Dead, Status::Dead],
    }
}

#[test]
fn prioritize_climbing_scores_climb_highest() {
    let game = Game {
        board: [
            [TSE, TS1, TSE, TSE, TSE],
            [TSE; 5],
            [TSE; 5],
            [TSE; 5],
            [TSE; 5],
        ],
        player_locations: [((0, 0), (3, 3)), ((17, 17), (17, 17)), ((17, 17), (17, 17))],

        player_statuses: [Status::Playing, Status::Dead, Status::Dead],
    };
    let climbing = PrioritizeClimbing {};
    let actions = game.list_possible_actions(0);
    let mut max = ((Worker::One, (0, 0), (0, 0)), i32::MIN);
    for action in actions.iter() {
        let score =
            climbing.get_score(&game, 0, action.0, action.1, action.2, false, false, false);
        if score > max.1 {
            max = (*action, score);
        }
    }
    assert_eq!((max.0).1, (0, 1));
}

#[test]
fn prioritize_climbing_scores_drop_lowest() {
    let game = Game {
        board: [
            [TS1, TSE, TS1, TS1, TS1],
            [TS1; 5],
            [TS1; 5],
            [TS1; 5],
            [TS1; 5],
        ],
        player_locations: [((0, 0), (3, 3)), ((17, 17), (17, 17)), ((17, 17), (17, 17))],

        player_statuses: [Status::Playing, Status::Dead, Status::Dead],
    };
    let climbing = PrioritizeClimbing {};
    let actions = game.list_possible_actions(0);
    let mut max = ((Worker::One, (0, 0), (0, 0)), i32::MAX);
    for action in actions.iter() {
        let score =
            climbing.get_score(&game, 0, action.0, action.1, action.2, false, false, false);
        if score < max.1 {
            max = (*action, score);
        }
    }
    assert_eq!((max.0).1, (0, 1));
}

#[test]
fn climbing_score_is_height_difference() {
    let mut game = lone((2, 2), (4, 4));
    game.board[2][2] = TowerStates::Level2;
    game.board[1][1] = TowerStates::Level3;
    let s = PrioritizeClimbing::new();
    assert_eq!(s.get_score(&game, 0, Worker::One, (1, 1), (0, 0), false, false, false), 1);
    assert_eq!(s.get_score(&game, 0, Worker::One, (3, 3), (3, 2), false, false, false), -2);
}

#[test]
fn capping_scores() {
    let mut game = lone((2, 2), (4, 4));
    game.board[1][2] = TowerStates::Level3;
    let s = PrioritizeCapping::new();
    assert_eq!(s.get_score(&game, 0, Worker::One, (1, 1), (1, 2), false, false, true), 1);
    assert_eq!(s.get_score(&game, 0, Worker::One, (1, 1), (1, 2), false, false, false), -1);
    assert_eq!(s.get_score(&game, 0, Worker::One, (1, 1), (0, 0), false, false, true), -1);
    assert_eq!(s.get_score(&game, 0, Worker::One, (1, 1), (0, 0), false, false, false), 0);
}

#[test]
fn blocking_scores() {
    let s = PrioritizeBlocking::new();
    let game = lone((2, 2), (4, 4));
    // not next to an opponent
    assert_eq!(s.get_score(&game, 0, Worker::One, (1, 1), (0, 0), false, false, false), 0);
    // level ground: building makes a step up for opponents
    assert_eq!(s.get_score(&game, 0, Worker::One, (1, 1), (0, 0), false, false, true), -3);
    // one level above every free neighbor: blocks access
    let mut raised = game;
    raised.board[0][0] = TowerStates::Level1;
    assert_eq!(s.get_score(&raised, 0, Worker::One, (1, 1), (0, 0), false, false, true), 2);
    // the workers' own cells do not count as neighbors, even when high
    raised.board[1][1] = TowerStates::Level3;
    raised.board[2][2] = TowerStates::Level3;
    let mut on_top = raised;
    on_top.board[2][2] = TowerStates::Level2;
    assert_eq!(s.get_score(&on_top, 0, Worker::One, (1, 1), (0, 0), false, false, true), 2);
    // a neighbor one level higher
    let mut hole = game;
    hole.board[0][1] = TowerStates::Level1;
    assert_eq!(s.get_score(&hole, 0, Worker::One, (1, 1), (0, 0), false, false, true), -2);
    // a neighbor two levels higher
    hole.board[0][1] = TowerStates::Level2;
    assert_eq!(s.get_score(&hole, 0, Worker::One, (1, 1), (0, 0), false, false, true), -1);
    // two levels above the neighbors
    let mut tall = game;
    tall.board[0][0] = TowerStates::Level2;
    assert_eq!(s.get_score(&tall, 0, Worker::One, (1, 1), (0, 0), false, false, true), -2);
}

#[test]
fn next_to_player_scores() {
    let s = PrioritizeNextToPlayer::new();
    let game = lone((2, 2), (4, 4));
    assert_eq!(s.get_score(&game, 0, Worker::One, (1, 1), (0, 0), true, true, false), 0);
    assert_eq!(s.get_score(&game, 0, Worker::One, (1, 1), (0, 0), true, false, false), -1);
    assert_eq!(s.get_score(&game, 0, Worker::One, (1, 1), (0, 0), false, true, false), 1);
    assert_eq!(s.get_score(&game, 0, Worker::One, (1, 1), (0, 0), false, false, false), -1);
}

#[test]
fn start_scores() {
    let placed = vec![((0, 0), (4, 4))];
    assert_eq!(StartNearPlayers::new().get_score(&placed, (1, 2), None), -5);
    assert_eq!(StartNearPlayers::new().get_score(&[], (1, 2), None), 0);
    assert_eq!(StartNearMiddle::new().get_score(&placed, (2, 2), None), 0);
    assert_eq!(StartNearMiddle::new().get_score(&placed, (0, 4), None), -2);
    assert_eq!(StartNearMiddle::new().get_score(&placed, (0, 1), None), -1);
    let away = StartAwayFromOtherWorker::new();
    assert_eq!(away.get_score(&placed, (3, 1), None), 0);
    assert_eq!(away.get_score(&placed, (3, 1), Some((0, 2))), 3);
    assert_eq!(away.get_score(&placed, (1, 4), Some((3, 0))), 1);
    assert_eq!(away.get_score(&placed, (0, 1), Some((4, 2))), 3);
}

#[test]
fn height_features() {
    let mut game = lone((1, 1), (3, 3));
    game.board[1][1] = TowerStates::Level2;
    game.board[3][3] = TowerStates::Level1;
    assert_eq!(get_total_height(&game, 0), 3);
    assert_eq!(get_max_height(&game, 0), 2);
    let unplaced = lone((1, 1), (17, 17));
    assert_eq!(get_total_height(&unplaced, 0), 0);
    assert_eq!(get_max_height(&unplaced, 0), 0);
}

#[test]
fn movable_squares_counted_once_at_edges() {
    assert_eq!(squares_movable_to(&lone((0, 0), (4, 4)), 0), 6);
    assert_eq!(squares_movable_to(&lone((2, 2), (17, 17)), 0), 8);
    assert_eq!(squares_movable_to(&lone((2, 2), (2, 3)), 0), 14);
}
