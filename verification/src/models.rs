//! The records that travel in request and response payloads.

pub mod chat_messages;
pub mod chat_user_unread_counts;
pub mod user;
