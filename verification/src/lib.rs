//! Iterated Prisoner's Dilemma: moves and payoffs, decision strategies,
//! a catalog that resolves strategies by name, and the engine that plays
//! two strategies against each other round by round.

pub mod chance;
pub mod engine;
pub mod error;
pub mod history;
pub mod notation;
pub mod params;
pub mod payoff;
pub mod strategies;
pub mod strategy;
pub mod text;

pub use crate::payoff::{calculate_payoffs, Move, PUNISHMENT, REWARD, SUCKER, TEMPTATION};
pub use crate::strategy::Strategy;
