//! Lifecycle rules for WireGuard tunnels: how a tunnel's state is detected from
//! the driver's report and the link flags, which external commands a toggle
//! issues and in which order, and how a new tunnel configuration is assembled.
//!
//! The crate decides and never performs: every external command, interface
//! query and key generation is carried out by the caller, who hands the outcome
//! back as a plain value.

pub mod cli;
pub mod config;
pub mod generation_settings;
pub mod tunnel;
pub mod utils;
