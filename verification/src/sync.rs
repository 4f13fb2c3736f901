//! Syncing the packages of a suite to the daemon.

use crate::api::{Distro, SuiteImport};
use crate::error::Error;
use crate::pattern::{compiled_from, patterns_from};
use crate::profile::SyncProfile;
use glob::Pattern;
use vstd::prelude::*;

verus! {

/// What to sync, and from where.
#[derive(Debug)]
pub struct PkgsSync {
    pub distro: Distro,
    pub suite: String,
    pub architecture: String,
    pub source: String,
    /// Print the packages instead of sending them.
    pub print_json: bool,
    pub maintainers: Vec<String>,
    pub pkgs: Vec<Pattern>,
    pub excludes: Vec<Pattern>,
}

/// What is to be done with the packages of a suite.
#[derive(Debug, PartialEq, Eq)]
pub enum SyncAction<D> {
    /// Print them as JSON.
    PrintJson(D),
    /// Send them to the daemon.
    SyncSuite(SuiteImport<D>),
}

/// What `request` does with `pkgs`, the packages that its distribution currently has: it either
/// prints them or sends them, together with where they belong.
pub open spec fn spec_sync<D>(request: PkgsSync, pkgs: D) -> SyncAction<D> {
    if request.print_json {
        SyncAction::PrintJson(pkgs)
    } else {
        SyncAction::SyncSuite(
            SuiteImport {
                distro: request.distro,
                suite: request.suite,
                architecture: request.architecture,
                pkgs,
            },
        )
    }
}

/// Decides what to do with `pkgs`, the packages that the distribution of `request` currently has.
pub fn sync<D>(request: PkgsSync, pkgs: D) -> (action: SyncAction<D>)
    ensures
        action == spec_sync(request, pkgs),
{
    if request.print_json {
        SyncAction::PrintJson(pkgs)
    } else {
        SyncAction::SyncSuite(
            SuiteImport {
                distro: request.distro,
                suite: request.suite,
                architecture: request.architecture,
                pkgs,
            },
        )
    }
}

/// `outcome` is the sync that `profile` describes. It fails if a pattern of the profile is not a
/// glob; a pattern that picks packages is reported before one that drops packages.
pub open spec fn sync_of_profile(
    profile: SyncProfile,
    print_json: bool,
    outcome: Result<PkgsSync, Error>,
) -> bool {
    match outcome {
        Ok(sync) => {
            &&& sync.distro == profile.distro
            &&& sync.suite == profile.suite
            &&& sync.architecture == profile.architecture
            &&& sync.source == profile.source
            &&& sync.print_json == print_json
            &&& sync.maintainers == profile.maintainers
            &&& compiled_from(profile.pkgs@, Ok(sync.pkgs))
            &&& compiled_from(profile.excludes@, Ok(sync.excludes))
        },
        Err(error) => {
            ||| compiled_from(profile.pkgs@, Err(error))
            ||| compiles(profile.pkgs@) && compiled_from(profile.excludes@, Err(error))
        },
    }
}

/// All of `texts` compile.
pub open spec fn compiles(texts: Seq<String>) -> bool {
    exists|patterns: Vec<Pattern>| #[trigger] compiled_from(texts, Ok(patterns))
}

/// The sync that `profile` describes.
pub fn profile_sync(profile: SyncProfile, print_json: bool) -> (outcome: Result<PkgsSync, Error>)
    ensures
        sync_of_profile(profile, print_json, outcome),
{
    let pkgs = match patterns_from(profile.pkgs.as_slice()) {
        Ok(pkgs) => pkgs,
        Err(error) => {
            return Err(error);
        },
    };
    assert(compiles(profile.pkgs@));
    let excludes = match patterns_from(profile.excludes.as_slice()) {
        Ok(excludes) => excludes,
        Err(error) => {
            return Err(error);
        },
    };
    Ok(
        PkgsSync {
            distro: profile.distro,
            suite: profile.suite,
            architecture: profile.architecture,
            source: profile.source,
            print_json,
            maintainers: profile.maintainers,
            pkgs,
            excludes,
        },
    )
}

} // verus!
