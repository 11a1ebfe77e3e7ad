//! Data model of the control plane: commands, configuration and replies that
//! travel between the API server and the daemon.

pub mod config;
pub mod error;
pub mod message;
pub mod query;
pub mod response;
pub mod routes;
pub mod server;
