//! Application layer: use cases and the mechanisms that combine the domain
//! abstractions.

pub mod add_word;
pub mod engine_registry;
pub mod filter_chain;
pub mod filters;
pub mod list_speakers;
pub mod rule_pipeline;
pub mod rules;
pub mod set_voice;
pub mod synthesize;
