//! Status views, configuration and terminal layout for managed client sites.
pub mod agents;
pub mod cli;
pub mod config;
pub mod monitor;
pub mod network;
pub mod output;
pub mod remote;
pub mod server;
pub mod status;
pub mod text;
pub mod wizard;
