//! Omniring: a Pokemon Champions single-battle simulator built as a reinforcement learning
//! environment.
pub mod action;
pub mod battle;
pub mod damage;
pub mod environment;
pub mod info;
pub mod pokedex;
pub mod reward;
mod roll;
pub mod state;
pub mod techdex;
pub mod text;

pub use action::{Action, ActionError};
pub use battle::Battle;
pub use environment::{Environment, Observation, StepOutcome};
pub use reward::{RewardTerms, reward_terms};
pub use state::{
    BattleObservation, BattleState, OpponentObservation, PokemonState, StateError,
    TeamPreviewObservation, TeamState,
};
