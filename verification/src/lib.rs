//! Verified core of the agentx remote executor: request and URL rules,
//! reconnect scheduling, PATH and dispatch decisions, header building and
//! the small configuration and secret-store types.
pub mod text;
pub mod remote_host;
pub mod registry;
pub mod reconnect;
pub mod auth;
pub mod arg0;
pub mod login;
pub mod network_policy;
pub mod network_proxy;
pub mod state;
pub mod config;
pub mod default_client;
