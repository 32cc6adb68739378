//! Per-user language preferences for a chat translation relay: the language
//! catalog, the preference store and the decisions taken for each message.

pub mod catalog;
pub mod dispatch;
pub mod language;
pub mod laws;
pub mod store;
pub mod text;
pub mod user;
