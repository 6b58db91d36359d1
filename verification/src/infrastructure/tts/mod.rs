//! The speech engines: what their answers mean and what the bot sends them.

pub mod aivoice;
pub mod http;
pub mod tsubaki;
