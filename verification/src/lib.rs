//! Verified core of a conversational relay for a chat bot.
//!
//! The crate tracks one session per chat (an authentication token plus the
//! most recent backend response payload), resolves whether an inbound message
//! continues a prior exchange, drives the polling state machine that merges
//! incremental backend fragments into one evolving reply, and renders a
//! response fragment into display text. Transport, command routing and
//! process bootstrap live outside this crate and hand it plain values.

pub mod driver;
pub mod payload;
pub mod render;
pub mod resolver;
pub mod store;
pub mod text;
