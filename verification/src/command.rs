//! The command line.

use crate::api::Status;
use crate::sync::PkgsSync;
use vstd::prelude::*;

verus! {

/// What the program was called with.
#[derive(Debug)]
pub struct Args {
    pub verbose: bool,
    /// Paint even if standard output is not a terminal.
    pub color: bool,
    /// The config file to load in place of the usual one.
    pub config: Option<String>,
    /// The URL of the daemon.
    pub endpoint: Option<String>,
    pub subcommand: SubCommand,
}

/// What the program is to do.
#[derive(Debug)]
pub enum SubCommand {
    /// Show what the workers do.
    Status,
    Pkgs(Pkgs),
    Queue(Queue),
    /// Print completions for a shell.
    Completions(Completions),
}

/// What to do with packages.
#[derive(Debug)]
pub enum Pkgs {
    Sync(PkgsSync),
    SyncProfile(PkgsSyncProfile),
    Ls(PkgsLs),
}

/// What to do with the queue.
#[derive(Debug)]
pub enum Queue {
    Ls(QueueLs),
    Push(QueuePush),
    Delete(QueueDelete),
}

/// Sync what a profile of a sync config describes.
#[derive(Debug)]
pub struct PkgsSyncProfile {
    pub profile: String,
    pub config_file: String,
    pub print_json: bool,
}

/// List the packages that meet all the given criteria.
#[derive(Debug)]
pub struct PkgsLs {
    pub name: Option<String>,
    pub status: Option<Status>,
    pub distro: Option<String>,
    pub suite: Option<String>,
    pub architecture: Option<String>,
    pub json: bool,
}

/// List the queue.
#[derive(Debug)]
pub struct QueueLs {
    /// Only the first items.
    pub head: bool,
    pub json: bool,
}

/// Put a package into the queue.
#[derive(Debug)]
pub struct QueuePush {
    pub name: String,
    pub version: Option<String>,
    pub distro: String,
    pub suite: String,
    pub architecture: Option<String>,
}

/// Take a package out of the queue.
#[derive(Debug)]
pub struct QueueDelete {
    pub name: String,
    pub version: Option<String>,
    pub distro: String,
    pub suite: String,
    pub architecture: Option<String>,
}

/// Print completions for `shell`.
#[derive(Debug)]
pub struct Completions {
    pub shell: String,
}

/// The log messages that are shown unless the environment asks for others.
pub fn default_log_filter(verbose: bool) -> (filter: &'static str)
    ensures
        filter@ == if verbose {
            "debug"@
        } else {
            "info"@
        },
{
    if verbose {
        "debug"
    } else {
        "info"
    }
}

/// The URL of the daemon: the one from the command line, else the one from the config file, else
/// a daemon on this machine.
pub open spec fn spec_endpoint(given: Option<String>, configured: Option<String>) -> Seq<char> {
    match (given, configured) {
        (Some(endpoint), _) => endpoint@,
        (None, Some(endpoint)) => endpoint@,
        (None, None) => "http://127.0.0.1:8080"@,
    }
}

/// The URL of the daemon.
pub fn endpoint(given: Option<String>, configured: Option<String>) -> (endpoint: String)
    ensures
        endpoint@ == spec_endpoint(given, configured),
{
    if let Some(endpoint) = given {
        endpoint
    } else if let Some(endpoint) = configured {
        endpoint
    } else {
        "http://127.0.0.1:8080".to_owned()
    }
}

/// How many items of the queue to list: the first 25, or all of them.
pub fn queue_limit(head: bool) -> (limit: Option<i64>)
    ensures
        limit == if head {
            Some(25i64)
        } else {
            None
        },
{
    if head {
        Some(25)
    } else {
        None
    }
}

} // verus!
