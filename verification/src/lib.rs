//! Simulation core of a two-player volleyball-style arcade match.
//!
//! A fixed-timestep controller advances a physics model and a rule-enforcement
//! state machine in lockstep and translates raw contacts into an ordered
//! stream of semantic game events (hits, ground touches, faults, resets, wins).

pub mod global;
pub mod vector;
pub mod player_input;
pub mod physic_world;
pub mod game_logic;
pub mod duel_match;
pub mod simple_bot;
pub mod local_game_state;
