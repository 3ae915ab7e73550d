//! The commands of the tool.
use vstd::prelude::*;

verus! {

/// A parsed command line.
#[derive(Debug)]
pub struct Cli {
    pub command: Commands,
}

/// What the tool is asked to do.
#[derive(Debug)]
pub enum Commands {
    /// Show the status of every component of a site, once or every 30
    /// seconds.
    Status { site: Option<String>, watch: bool },
    /// List the configured sites.
    Sites,
    /// Manage site configurations.
    Site(SiteCommands),
    /// Show the agents of a site in detail.
    Agents { site: Option<String> },
    /// Check that a host is reachable, with its latency.
    Ping { host: String },
}

/// What is done to site configurations.
#[derive(Debug)]
pub enum SiteCommands {
    /// Add a site by answering questions.
    Add,
}

/// Seconds between two reports in watch mode.
pub const WATCH_INTERVAL_SECS: u64 = 30;

} // verus!
