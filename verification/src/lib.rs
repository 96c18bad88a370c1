//! Supervisor core of a fallback media source.
//!
//! The supervisor owns a primary source and an optional fallback source,
//! routes their per-kind outputs through switches, and restarts a source
//! that fails or stalls. This crate holds the decisions only: each entry
//! point takes the supervisor's state and one event, and hands back the
//! commands that the host pipeline has to carry out.

pub mod action;
pub mod classify;
pub mod laws;
pub mod lifecycle;
pub mod messages;
pub mod pads;
pub mod probes;
pub mod release;
pub mod restart;
pub mod state;
pub mod supervisor;
pub mod time;
pub mod timeout;
pub mod timers;
pub mod transition;
pub mod types;
pub mod unblock;
pub mod watch;
