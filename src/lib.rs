//! Heartbeat language server core: turns editor document notifications into
//! debounced invocations of the time-tracking command-line agent.
pub mod text;
pub mod clock;
pub mod event;
pub mod config;
pub mod args;
pub mod debounce;
pub mod laws;
pub mod install;
