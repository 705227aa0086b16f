//! The messages that clients send and receive.
pub mod inbound;
pub mod outbound;
