//! The decisions of a desktop application's self-update routine.
//!
//! An update attempt is a short conversation with the outside world: ask
//! whether a newer version exists, download and install it, ask the user
//! whether to restart, restart. This crate holds the part of that
//! conversation that decides, as a state machine from events to actions. The
//! host application performs each action and hands back what happened.

pub mod flow;
pub mod history;
pub mod prompt;
