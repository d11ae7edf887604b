//! Provider-agnostic conversation and tool-use engine for a terminal chat
//! client: adapters that turn a neutral message history into each backend's
//! wire shape and read the reply back out, a dispatcher that recognises tool
//! directives in assistant replies, the turn state machine that drives one
//! user turn (with at most one nested tool round-trip), and a session store
//! that keeps the durable transcript.

pub mod adapter;
pub mod dispatch;
pub mod engine;
pub mod json;
pub mod search;
pub mod store;
pub mod msg;
pub mod text;
