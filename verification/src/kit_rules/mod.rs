//! A further set of ready-made rules: commands with configurable prefixes
//! and bot mentions, senders, and patterns.
pub mod message;
