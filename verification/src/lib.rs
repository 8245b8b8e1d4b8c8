//! Agent-side state and decision layer for iterated two-action matrix games
//! (prisoner's dilemma, chicken, battle of the sexes and kin).
//!
//! The crate models, for one agent, the information set that accumulates
//! encounter reports round by round, the payoff accounting that goes with it,
//! and a library of deterministic decision policies that read that state and
//! choose the next action.  Every operation carries a contract that pins its
//! result down, and the invariants that tie counters, cached payoffs and raw
//! history together are proved rather than assumed.

pub mod domain;
pub mod historyless;
pub mod own_history;
pub mod payoff;
pub mod policy;
pub mod prisoner;
pub mod reward_table;
