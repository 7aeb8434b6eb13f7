//! Handlers: which of them receive an update, and with what data.
pub mod callback_query_handler;
pub mod new_message_handler;
pub mod message_events;
