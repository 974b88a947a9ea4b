//! The decisions of a client for the Binance market data streams.
//!
//! The client subscribes to the streams of one symbol, each over a
//! connection of its own, and merges what they carry into one sequence of
//! events. This crate holds what the client decides: which streams to open
//! and at which addresses, when the consumer may be served, and what to do
//! with each frame that arrives. It opens no connection, starts no thread and
//! decodes no payload: whoever drives it does that, and tells it the outcome.

pub mod error;
pub mod text;
pub mod websocket;
