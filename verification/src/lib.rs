//! Bridge between a chat-bot host and a message broker.
//!
//! Inbound chat events are encoded and addressed for a topic exchange;
//! commands arriving over the broker are decoded, turned into bot actions
//! and answered with a reply that keeps the caller's correlation identifier.
//! The library decides and encodes; the surrounding program performs the
//! broker and host calls that those decisions name.

pub mod text;
pub mod message;
pub mod json;
pub mod client;
pub mod config;
pub mod command;
pub mod laws;
