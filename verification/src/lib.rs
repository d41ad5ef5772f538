//! Relay core for bridging game-server consoles and a chat channel.
//!
//! Console lines are classified into events by a dialect parser, events are
//! fanned out over a bounded relay bus, and every endpoint renders the events
//! of the other endpoints in its own medium.

pub mod event;
pub mod pattern;
pub mod text;
pub mod sanitize;
pub mod parsers;
pub mod dialects;
pub mod registry;
pub mod bus;
pub mod console;
pub mod chat;
pub mod servers;
