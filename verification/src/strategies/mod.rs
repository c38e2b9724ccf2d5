//! The strategies, one module each.

pub mod adaptative_strategy;
pub mod always_cooperate;
pub mod always_defect;
pub mod any;
pub mod catalog;
pub mod configurable_generous_tit_for_tat;
pub mod custom_random;
pub mod cycler;
pub mod firm_majority;
pub mod forgiving;
pub mod generous_tit_for_tat;
pub mod gradual;
pub mod gradual_tit_for_tat;
pub mod grim_trigger;
pub mod hard_tit_for_tat;
pub mod imperfect_tit_for_tat;
pub mod info;
pub mod looker_up;
pub mod majority;
pub mod omega_tit_for_tat;
pub mod probability_cooperator;
pub mod random;
pub mod reverse_tit_for_tat;
pub mod soft_majority;
pub mod stochastic_tit_for_tat;
pub mod suspicious_tit_for_tat;
pub mod tester;
pub mod tit_for_tat;
pub mod tit_for_two_tats;
pub mod two_tit_for_tats;
pub mod win_stay_lose_shift;
pub mod win_stay_lose_shift_axelrod;

pub use crate::strategies::any::{AnyStrategy, StrategyConstructor};
pub use crate::strategies::catalog::{create_strategy_by_name, Catalog};
pub use crate::strategies::info::StrategyInfo;
