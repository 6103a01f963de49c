//! Scheduling and live chat for stream sessions: signed session tokens and the
//! role gate built on them, the chat broadcast hub, and the rules for sessions
//! and accounts.

pub mod decimal;
pub mod security;
pub mod chat;
pub mod sessions;
pub mod database;
pub mod usermanagement;
pub mod administration;
