//! Recording messages into a file: how it is configured, what is queued and what is written.
pub mod agreement;
pub mod config;
pub mod queue;
pub mod writer;
