use rust_santorini::{
    first_free_start, first_legal_action, is_valid_start, main_loop, random_legal_action,
    FirstChoice, Game, Player, RandomChoice,
    StartLocation, Status, TowerStates, TurnOutcome, Worker,
};

fn lone_worker(w1: (u8, u8), w2: (u8, u8)) -> Game {
    Game {
        board: [[TowerStates::Empty; 5]; 5],
        player_locations: [(w1, w2), ((17, 17), (17, 17)), ((17, 17), (17, 17))],
        player_statuses: [Status::Playing, Status::Dead, Status::Dead],
    }
}

/// A strategy that always tries to move its first worker three cells away.
struct Reckless {}

impl Player for Reckless {
    fn get_action(&self, game: &Game, player_id: usize) -> (Worker, (u8, u8), (u8, u8)) {
        let (w1, _) = game.player_locations[player_id];
        (Worker::One, (w1.0, (w1.1 + 3) % 5), (w1.0, (w1.1 + 4) % 5))
    }

    fn get_starting_position(&self, _game: &Game, placed: &[StartLocation]) -> StartLocation {
        first_free_start(placed)
    }
}

enum Strategy {
    Reckless(Reckless),
    First(FirstChoice),
}

impl Player for Strategy {
    fn get_action(&self, game: &Game, player_id: usize) -> (Worker, (u8, u8), (u8, u8)) {
        match self {
            Strategy::Reckless(s) => s.get_action(game, player_id),
            Strategy::First(s) => s.get_action(game, player_id),
        }
    }

    fn get_starting_position(&self, game: &Game, placed: &[StartLocation]) -> StartLocation {
        match self {
            Strategy::Reckless(s) => s.get_starting_position(game, placed),
            Strategy::First(s) => s.get_starting_position(game, placed),
        }
    }
}

/// A strategy that never proposes an acceptable starting pair.
struct Stubborn {}

impl Player for Stubborn {
    fn get_action(&self, _game: &Game, _player_id: usize) -> (Worker, (u8, u8), (u8, u8)) {
        (Worker::One, (0, 0), (0, 0))
    }

    fn get_starting_position(&self, _game: &Game, _placed: &[StartLocation]) -> StartLocation {
        ((1, 1), (1, 1))
    }
}

#[test]
fn illegal_action_eliminates_and_the_other_slot_plays_on() {
    let reckless = Strategy::Reckless(Reckless {});
    let first = Strategy::First(FirstChoice::new());
    let result = main_loop([Some(&reckless), Some(&first), None]);
    assert_ne!(result, Some(0));
    assert_ne!(result, Some(2));
}

#[test]
fn apply_illegal_action_marks_player_dead_only() {
    let mut game = lone_worker((2, 0), (4, 4));
    let before = game;
    let outcome = game.apply_action(0, (Worker::One, (2, 3), (2, 4)));
    assert_eq!(outcome, TurnOutcome::Eliminated);
    assert!(game.player_statuses[0] == Status::Dead);
    assert_eq!(game.board, before.board);
    assert_eq!(game.player_locations, before.player_locations);
}

#[test]
fn stepping_onto_level3_wins_without_building() {
    let mut game = lone_worker((2, 2), (17, 17));
    game.board[2][2] = TowerStates::Level2;
    game.board[2][3] = TowerStates::Level3;
    game.board[2][4] = TowerStates::Level1;
    let before = game;
    let outcome = game.apply_action(0, (Worker::One, (2, 3), (2, 4)));
    assert_eq!(outcome, TurnOutcome::Won);
    assert_eq!(game.board, before.board);
    assert_eq!(game.player_locations, before.player_locations);
}

#[test]
fn legal_action_moves_and_builds() {
    let mut game = lone_worker((2, 2), (0, 0));
    game.board[3][3] = TowerStates::Level1;
    let outcome = game.apply_action(0, (Worker::One, (2, 3), (3, 3)));
    assert_eq!(outcome, TurnOutcome::Played);
    assert_eq!(game.player_locations[0], ((2, 3), (0, 0)));
    assert_eq!(game.board[3][3], TowerStates::Level2);
    assert_eq!(game.board[2][2], TowerStates::Empty);
    let outcome = game.apply_action(0, (Worker::Two, (1, 1), (0, 0)));
    assert_eq!(outcome, TurnOutcome::Played);
    assert_eq!(game.player_locations[0], ((2, 3), (1, 1)));
    assert_eq!(game.board[0][0], TowerStates::Level1);
}

#[test]
fn start_positions_are_checked() {
    let placed: Vec<StartLocation> = vec![((0, 0), (0, 1))];
    assert!(is_valid_start(&placed, ((2, 2), (3, 3))));
    assert!(!is_valid_start(&placed, ((2, 2), (2, 2))));
    assert!(!is_valid_start(&placed, ((5, 2), (3, 3))));
    assert!(!is_valid_start(&placed, ((0, 0), (3, 3))));
    assert!(!is_valid_start(&placed, ((3, 3), (0, 0))));
    assert!(!is_valid_start(&placed, ((0, 1), (3, 3))));
    assert!(!is_valid_start(&placed, ((3, 3), (0, 1))));
    assert!(is_valid_start(&[], ((4, 4), (0, 0))));
}

#[test]
fn first_choice_picks_first_free_cells() {
    assert_eq!(first_free_start(&[]), ((0, 0), (0, 1)));
    assert_eq!(first_free_start(&[((0, 0), (0, 2))]), ((0, 1), (0, 3)));
    assert_eq!(
        first_free_start(&[((0, 0), (0, 1)), ((0, 2), (0, 3))]),
        ((0, 4), (1, 0))
    );
}

#[test]
fn first_choice_takes_first_listed_action() {
    let game = lone_worker((2, 2), (17, 17));
    assert_eq!(first_legal_action(&game, 0), (Worker::One, (1, 1), (0, 0)));
    let trapped = Game {
        board: [[TowerStates::Capped; 5]; 5],
        player_locations: [((2, 2), (2, 3)), ((17, 17), (17, 17)), ((17, 17), (17, 17))],
        player_statuses: [Status::Playing, Status::Dead, Status::Dead],
    };
    assert_eq!(first_legal_action(&trapped, 0), (Worker::One, (0, 0), (0, 0)));
}

#[test]
fn two_first_choice_players_finish_a_game() {
    let a = FirstChoice::new();
    let b = FirstChoice::new();
    let result = main_loop([Some(&a), Some(&b), None]);
    assert!(result == None || result == Some(0) || result == Some(1));
}

#[test]
fn slot_without_acceptable_start_sits_out() {
    let s = Stubborn {};
    assert_eq!(main_loop([Some(&s), None, None]), None);
}

#[test]
fn empty_table_has_no_winner() {
    let none: [Option<&FirstChoice>; 3] = [None, None, None];
    assert_eq!(main_loop(none), None);
}

#[test]
fn random_choice_plays_legal_actions_in_varying_order() {
    let game = lone_worker((2, 2), (17, 17));
    let actions = game.list_possible_actions(0);
    let mut seen = Vec::new();
    for _ in 0..200 {
        let a = random_legal_action(&game, 0);
        assert!(actions.contains(&a));
        assert!(game.is_valid(0, a.0, a.1, a.2, false));
        if !seen.contains(&a) {
            seen.push(a);
        }
    }
    assert!(seen.len() > 1);
}

#[test]
fn random_choice_without_moves_hands_in_placeholder() {
    let trapped = Game {
        board: [[TowerStates::Capped; 5]; 5],
        player_locations: [((2, 2), (2, 3)), ((17, 17), (17, 17)), ((17, 17), (17, 17))],
        player_statuses: [Status::Playing, Status::Dead, Status::Dead],
    };
    let player = RandomChoice::new();
    assert_eq!(player.get_action(&trapped, 0), (Worker::One, (0, 0), (0, 0)));
}

#[test]
fn random_players_finish_a_game() {
    let a = RandomChoice::new();
    let result = main_loop([Some(&a), Some(&a), Some(&a)]);
    assert!(result.map_or(true, |w| w < 3));
}
