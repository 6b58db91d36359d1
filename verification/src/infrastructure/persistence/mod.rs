//! The user voice settings as they are stored.

pub mod json_voice_store;
