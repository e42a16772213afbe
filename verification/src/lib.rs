//! Presence tracking for one kind of hot-pluggable device.
//!
//! The library turns device records into add/remove events, folds those
//! events into a set of present identities, and names the external command
//! that has to run whenever that set changes between empty and non-empty.
//! Every function here is pure with respect to the outside world: reading
//! device events and running commands is left to the caller.

pub mod command;
pub mod event;
pub mod filter;
pub mod laws;
pub mod outcome;
pub mod setting;
pub mod startup;
pub mod tracker;
