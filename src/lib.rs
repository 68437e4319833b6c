//! Rules engine for a Santorini-like building game on a 5x5 board: move and
//! build validation, legal-action enumeration, and the turn loop.
pub mod actions;
pub mod engine;
pub mod features;
pub mod first_choice;
pub mod game;
pub mod laws;
pub mod random_choice;
pub mod scoring;
pub mod tower;

pub use engine::{is_valid_start, main_loop, Player, TurnOutcome, MAX_PLACEMENT_ATTEMPTS};
pub use features::{get_max_height, get_total_height, squares_movable_to};
pub use first_choice::{first_free_start, first_legal_action, FirstChoice};
pub use game::{Action, Game, StartLocation};
pub use random_choice::{random_legal_action, RandomChoice};
pub use scoring::{
    ActionScorer, PrioritizeBlocking, PrioritizeCapping, PrioritizeClimbing, PrioritizeNextToPlayer,
    StartAwayFromOtherWorker, StartNearMiddle, StartNearPlayers, StartScorer,
};
pub use tower::{Status, TowerStates, Worker};
