//! Configuration core of a host-monitoring agent: a typed, fail-fast model
//! of the agent's on-disk YAML configuration and of its logging destination.
//!
//! A document is parsed into a plain value tree ([`yaml`]), validated
//! against the closed schema ([`config`]) — rejecting unknown keys, absent
//! required fields and ill-shaped values, and resolving every optional field
//! to its documented default — and handed out as an immutable
//! [`AgentConfiguration`]. The schema's guarantees are stated and proved in
//! [`laws`].

pub mod config;
pub mod laws;
pub mod parse;
pub mod text;
pub mod yaml;

pub use config::AgentConfiguration;
pub use config::ConfigError;
pub use config::LogConfig;
pub use config::LogLevel;
pub use config::LogLocation;
