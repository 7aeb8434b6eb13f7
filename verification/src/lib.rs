//! A small toolkit for Telegram bots: message and callback rules, the
//! checks that decide which handler receives an update, the middleware
//! and dispatch decisions, conversations and client configuration.

pub mod builder;
pub mod client;
pub mod conversation;
pub mod dispatcher;
pub mod event_dispatcher;
pub mod handlers;
pub mod kit_rules;
pub mod middleware;
pub mod pattern;
pub mod reconnection;
pub mod rules;
pub mod text;
pub mod types;

mod shared;
