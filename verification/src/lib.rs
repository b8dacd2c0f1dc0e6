//! Lifecycle management for one external line-protocol worker process:
//! encoding and decoding of the newline-delimited exchange, the manager's
//! state machine for spawning, reuse, hot model-swap, idle reclamation and
//! shutdown, and the small utilities the surrounding application relies on.

pub mod codec;
pub mod config;
pub mod errors;
pub mod file_util;
pub mod laws;
pub mod manager;
pub mod models;
pub mod network;
pub mod paths;
pub mod registry;
pub mod text;
