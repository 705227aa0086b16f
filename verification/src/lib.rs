//! Room state machine and broadcast coordinator of a meeting server.
//!
//! Clients in a named room raise and lower flags, send instant signals, run
//! moderated polls and change each other's privileges. The coordinator keeps
//! the state of every room, applies one command at a time and answers each
//! with the text frames that have to reach the sessions of that room.
pub mod coordinator;
pub mod flags;
pub mod invariants;
pub mod json;
pub mod laws;
pub mod membership;
pub mod messages;
pub mod model;
pub mod polls;
pub mod privileges;
pub mod room;
pub mod server;
pub mod session;
