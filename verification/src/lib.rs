//! A generic finite-state-machine engine.
//!
//! Given a fixed set of states and events, the engine enforces that state
//! changes occur only along declared transitions. Two sibling variants share
//! one data model (a table of allowed moves):
//!
//! - an event-driven machine ([`fsm`]), keyed by (state, event) pairs, where
//!   an invalid trigger is an ordinary, recoverable outcome returned to the
//!   caller and the state is left unchanged;
//! - a direct state-change machine ([`direct`]), keyed by (from, to) pairs,
//!   where an invalid change is a caller bug: verified callers are obliged to
//!   stay inside the declared schema, and an unverified caller that strays
//!   outside it is stopped at run time.

pub mod direct;
pub mod fsm;
pub mod table;
