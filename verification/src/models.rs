//! Data models shared across the gateway.

pub mod responses;
pub mod search;
pub mod source;
pub mod user;
