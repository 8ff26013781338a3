//! The chat handlers' request parsing and decision rules.

pub mod chat;
