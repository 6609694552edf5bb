//! Sandbox container lifecycle management for agent sessions.
//!
//! A session may run inside a container instead of on the host. This crate
//! names that container, turns lifecycle intents into runtime commands,
//! reads the runtime's answers, models the container's states, and keeps the
//! session's persisted sandbox record consistent with what the runtime reports.
pub mod cli;
pub mod docker;
pub mod lifecycle;
pub mod reconcile;
pub mod session;
