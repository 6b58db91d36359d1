//! The decision logic behind the bot's boundaries with Discord, the speech
//! engines and the settings file: what to answer, what to build, what to
//! store. The boundaries themselves (network, files) are outside this crate.

pub mod discord;
pub mod persistence;
pub mod tts;
