//! The core of a chat with a tool-using model that builds browser games.
//!
//! A message log is assembled into a conversation ([`history`]); the
//! provider's stream is normalised into canonical events
//! ([`normalizer`]), whose text is kept turn by turn ([`accumulator`]);
//! and a state machine ([`controller`]) decides, step by step, what is
//! delivered to the subscriber, when the game tool ([`game_builder`])
//! runs, and when the run is over. What holds of every run is proved in
//! [`laws`]. The record store's reading and writing of games is in
//! [`store`].
//!
//! Nothing here performs input or output: the host reads the stream,
//! delivers the events, runs the tool and talks to the database, and
//! tells the library what came of it.

pub mod accumulator;
pub mod commands;
pub mod controller;
pub mod event;
pub mod game_builder;
pub mod history;
pub mod laws;
pub mod message;
pub mod normalizer;
pub mod prompt;
pub mod store;
pub mod text;
