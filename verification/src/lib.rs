//! The decisions of a fleet monitoring agent and of its collector: validating
//! configurations, applying configuration overrides with rollback, the agent's
//! report-and-poll cycle, and the addresses and statuses of the HTTP exchange.

pub mod agent;
pub mod client;
pub mod collector;
pub mod config;
pub mod error;
pub mod metrics;
pub mod probe;
pub mod service;
