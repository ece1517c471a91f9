//! A generic finite-state-machine contract.
//!
//! A concrete state type implements [`FsmState`]: it classifies an incoming
//! event into a [`FsmTransition`] and reacts through the lifecycle hooks
//! `on_entry`, `on_do` and `on_exit`. The single dispatch algorithm
//! [`FsmState::fire`] turns (current state, event, context) into
//! (next state, next context) or a propagated error; its behaviour is pinned
//! down by the spec function [`spec_fire`], and the laws of the dispatch
//! algorithm are proved once for every implementation in [`laws`].
//!
//! The [`switch_fsm`] module is a worked example: a two-state switch whose
//! states, events, context and errors exercise every transition kind.

pub mod fsm_state;
pub mod fsm_transition;
pub mod laws;
pub mod switch_fsm;

pub use fsm_state::FsmState;
pub use fsm_state::spec_fire;
pub use fsm_transition::FsmTransition;
