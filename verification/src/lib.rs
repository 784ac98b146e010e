//! Registry and notification engine for system media-transport sessions.
//!
//! The crate holds the decisions of a session monitor as verified state
//! machines over plain values: which sessions enter or leave the registry when
//! the provider reports a new session list, which subscription tokens have to
//! be released, and which subscriber callbacks receive which event. Talking to
//! the provider and to the subscribers is left to the caller.

pub mod types;
pub mod laws;
pub mod media_control;
pub mod monitor;
pub mod session_manager;
pub mod utils;
