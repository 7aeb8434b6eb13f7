//! Rules that decide whether a message or a callback query concerns a handler.
pub mod callback;
pub mod message;
