//! Domain layer: value objects and the abstractions the rules and filters
//! implement.

pub mod message_filter;
pub mod model;
pub mod text_rule;
