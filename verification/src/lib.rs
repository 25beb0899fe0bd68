//! Verified core of a real-time media client bridge: a bounded sample ring,
//! paced audio pipelines, a pipeline registry, tiered data sending and the
//! routing of inbound room events to callbacks.

pub mod client;
pub mod config;
pub mod dispatch;
pub mod laws;
pub mod pipeline;
pub mod registry;
pub mod ring;
pub mod sender;
pub mod stub;
pub mod text;
pub mod types;
