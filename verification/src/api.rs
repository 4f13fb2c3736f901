//! What the commands ask of the daemon, and what they read of its answers.

use crate::time::Timestamp;
use vstd::prelude::*;

verus! {

/// A distribution whose packages can be scheduled.
#[derive(Clone, Copy, Debug, PartialEq, Eq, Structural)]
pub enum Distro {
    Archlinux,
    Debian,
}

/// What the rebuilds of a package came to.
#[derive(Clone, Copy, Debug, PartialEq, Eq, Structural)]
pub enum Status {
    Good,
    Bad,
    Unknown,
}

/// A worker of the daemon. Its status says what it works on; an idle worker has none.
#[derive(Debug, PartialEq, Eq)]
pub struct Worker {
    pub key: String,
    pub addr: String,
    pub status: Option<String>,
}

/// A release of a package.
#[derive(Debug, PartialEq, Eq)]
pub struct PkgRelease {
    pub name: String,
    pub version: String,
    pub status: Status,
    pub distro: String,
    pub suite: String,
    pub architecture: String,
    pub url: String,
}

/// A package release that waits to be rebuilt, or is being rebuilt.
#[derive(Debug)]
pub struct QueueItem {
    pub package: PkgRelease,
    pub queued_at: Timestamp,
    pub started_at: Option<Timestamp>,
}

/// The queue, with the time at which the daemon answered.
#[derive(Debug)]
pub struct QueueList {
    pub now: Timestamp,
    pub queue: Vec<QueueItem>,
}

/// Replaces all packages of a suite by `pkgs`.
#[derive(Debug, PartialEq, Eq)]
pub struct SuiteImport<D> {
    pub distro: Distro,
    pub suite: String,
    pub architecture: String,
    pub pkgs: D,
}

/// Lists the packages that meet all the given criteria.
#[derive(Debug, PartialEq, Eq)]
pub struct ListPkgs {
    pub name: Option<String>,
    pub status: Option<Status>,
    pub distro: Option<String>,
    pub suite: Option<String>,
    pub architecture: Option<String>,
}

/// Lists the queue, or its first `limit` items.
#[derive(Debug, PartialEq, Eq)]
pub struct ListQueue {
    pub limit: Option<i64>,
}

/// Puts a package into the queue.
#[derive(Debug, PartialEq, Eq)]
pub struct PushQueue {
    pub name: String,
    pub version: Option<String>,
    pub distro: String,
    pub suite: String,
    pub architecture: Option<String>,
}

/// Takes a package out of the queue.
#[derive(Debug, PartialEq, Eq)]
pub struct DropQueueItem {
    pub name: String,
    pub version: Option<String>,
    pub distro: String,
    pub suite: String,
    pub architecture: Option<String>,
}

} // verus!
