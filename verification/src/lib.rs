//! yomiage — the decision logic of a Discord text-to-speech bot: text
//! preprocessing rules, message filters, the engine registry, user voice
//! settings, configuration values and the small parsers the bot uses.

pub mod application;
pub mod config;
pub mod domain;
pub mod text;
pub mod error;
pub mod infrastructure;
