//! The course of a command: what is to be done next, given how the last thing went.
//!
//! [`start`] and [`step`] decide; the caller performs the [`Action`] that they give and reports
//! back with an [`Event`].

use crate::api::{Distro, DropQueueItem, ListPkgs, ListQueue, PushQueue, SuiteImport};
use crate::command::{
    endpoint, queue_limit, spec_endpoint, Args, Completions, Pkgs, Queue, SubCommand,
};
use crate::error::{Error, Failure};
use crate::profile::{SyncConfigFile, SyncProfile};
use crate::sync::{profile_sync, spec_sync, sync, sync_of_profile, PkgsSync, SyncAction};
use vstd::prelude::*;

verus! {

/// What a command that needs the auth cookie does once the cookie is there.
#[derive(Debug)]
pub enum Authorized {
    ListWorkers,
    Sync(PkgsSync),
    SyncProfile(SyncProfile, bool),
    PushQueue(PushQueue),
    DropQueueItem(DropQueueItem),
}

/// In which form a list is printed.
#[derive(Clone, Copy, Debug, PartialEq, Eq, Structural)]
pub enum Form {
    Workers,
    Pkgs,
    Queue,
    Json,
}

/// What a running command waits for.
#[derive(Debug)]
pub enum State {
    /// Painting is being forced.
    Coloring { config: Option<String>, endpoint: Option<String>, subcommand: SubCommand },
    /// The config file is being loaded.
    LoadingConfig { endpoint: Option<String>, subcommand: SubCommand },
    /// The client is being set up.
    Connecting { subcommand: SubCommand },
    /// The sync config is being loaded.
    LoadingProfiles { profile: String, print_json: bool },
    /// The auth cookie is being looked up.
    Authorizing { request: Authorized },
    /// The packages of a distribution are being collected.
    Scheduling { sync: PkgsSync },
    /// The daemon is asked for a list.
    Listing { form: Form },
    /// The last thing is being done.
    Finishing,
    /// All went well.
    Finished,
    /// Something went wrong.
    Failed,
}

/// What the caller has to do next. `D` is the type of the lists that the caller gets from the
/// daemon or from a distribution.
#[derive(Debug)]
pub enum Action<D> {
    /// Paint from now on, wherever the output goes.
    ForceColors,
    /// Load the config file from this place, or from the usual one.
    LoadConfig(Option<String>),
    /// Set up a client for the daemon at this URL.
    Connect(String),
    /// Load the sync config from this file.
    LoadProfiles(String),
    /// Look up the auth cookie and give it to the client.
    FindAuthCookie,
    /// Collect the packages that the distribution of the sync in [`State::Scheduling`] has.
    Schedule(Distro),
    ListWorkers,
    ListPkgs(ListPkgs),
    ListQueue(ListQueue),
    SyncSuite(SuiteImport<D>),
    PushQueue(PushQueue),
    DropQueueItem(DropQueueItem),
    PrintJson(D),
    PrintWorkers(D),
    PrintPkgs(D),
    PrintQueue(D),
    GenCompletions(Completions),
    /// Exit with success.
    Finish,
    /// Report the error and exit with status 1.
    Fail(Error),
}

/// How the last action went.
#[derive(Debug)]
pub enum Event<D> {
    /// It is done, and there is nothing to say about it.
    Done,
    /// The config file was loaded, and has this URL for the daemon.
    ConfigLoaded(Option<String>),
    /// The sync config was loaded.
    ProfilesLoaded(SyncConfigFile),
    /// This list was received.
    Received(D),
    /// It failed.
    Failed(Failure),
}

/// `event` can happen while a command waits in `state`. Neither forcing colors nor setting up a
/// client can fail.
pub open spec fn expected<D>(state: State, event: Event<D>) -> bool {
    match state {
        State::Coloring { .. } | State::Connecting { .. } => event is Done,
        State::LoadingConfig { .. } => event is ConfigLoaded || event is Failed,
        State::LoadingProfiles { .. } => event is ProfilesLoaded || event is Failed,
        State::Authorizing { .. } | State::Finishing => event is Done || event is Failed,
        State::Scheduling { .. } | State::Listing { .. } => event is Received || event is Failed,
        State::Finished | State::Failed => false,
    }
}

/// A command that is called with `args` first waits in `state` for `action`.
pub open spec fn starts<D>(args: Args, state: State, action: Action<D>) -> bool {
    if args.color {
        &&& state == State::Coloring {
            config: args.config,
            endpoint: args.endpoint,
            subcommand: args.subcommand,
        }
        &&& action == Action::<D>::ForceColors
    } else {
        &&& state == State::LoadingConfig {
            endpoint: args.endpoint,
            subcommand: args.subcommand,
        }
        &&& action == Action::<D>::LoadConfig(args.config)
    }
}

/// Starts the command that `args` describe.
pub fn start<D>(args: Args) -> (begun: (State, Action<D>))
    ensures
        starts(args, begun.0, begun.1),
{
    let Args { verbose: _, color, config, endpoint, subcommand } = args;
    if color {
        (State::Coloring { config, endpoint, subcommand }, Action::ForceColors)
    } else {
        (State::LoadingConfig { endpoint, subcommand }, Action::LoadConfig(config))
    }
}

/// The form in which a command prints a list.
pub open spec fn chosen_form(json: bool, table: Form) -> Form {
    if json {
        Form::Json
    } else {
        table
    }
}

/// With a client at hand, `subcommand` goes on in `next` with `action`. Listing packages and the
/// queue takes no auth cookie; everything else that talks to the daemon does.
pub open spec fn dispatches<D>(subcommand: SubCommand, next: State, action: Action<D>) -> bool {
    match subcommand {
        SubCommand::Status => {
            &&& next == State::Authorizing { request: Authorized::ListWorkers }
            &&& action == Action::<D>::FindAuthCookie
        },
        SubCommand::Pkgs(Pkgs::Sync(sync)) => {
            &&& next == State::Authorizing { request: Authorized::Sync(sync) }
            &&& action == Action::<D>::FindAuthCookie
        },
        SubCommand::Pkgs(Pkgs::SyncProfile(request)) => {
            &&& next == State::LoadingProfiles {
                profile: request.profile,
                print_json: request.print_json,
            }
            &&& action == Action::<D>::LoadProfiles(request.config_file)
        },
        SubCommand::Pkgs(Pkgs::Ls(ls)) => {
            &&& next == State::Listing { form: chosen_form(ls.json, Form::Pkgs) }
            &&& action == Action::<D>::ListPkgs(
                ListPkgs {
                    name: ls.name,
                    status: ls.status,
                    distro: ls.distro,
                    suite: ls.suite,
                    architecture: ls.architecture,
                },
            )
        },
        SubCommand::Queue(Queue::Ls(ls)) => {
            &&& next == State::Listing { form: chosen_form(ls.json, Form::Queue) }
            &&& action == Action::<D>::ListQueue(
                ListQueue {
                    limit: if ls.head {
                        Some(25i64)
                    } else {
                        None
                    },
                },
            )
        },
        SubCommand::Queue(Queue::Push(push)) => {
            &&& next == State::Authorizing {
                request: Authorized::PushQueue(
                    PushQueue {
                        name: push.name,
                        version: push.version,
                        distro: push.distro,
                        suite: push.suite,
                        architecture: push.architecture,
                    },
                ),
            }
            &&& action == Action::<D>::FindAuthCookie
        },
        SubCommand::Queue(Queue::Delete(delete)) => {
            &&& next == State::Authorizing {
                request: Authorized::DropQueueItem(
                    DropQueueItem {
                        name: delete.name,
                        version: delete.version,
                        distro: delete.distro,
                        suite: delete.suite,
                        architecture: delete.architecture,
                    },
                ),
            }
            &&& action == Action::<D>::FindAuthCookie
        },
        SubCommand::Completions(completions) => {
            &&& next == State::Finishing
            &&& action == Action::<D>::GenCompletions(completions)
        },
    }
}

/// Goes on with `subcommand` once a client is at hand.
pub fn dispatch<D>(subcommand: SubCommand) -> (going_on: (State, Action<D>))
    ensures
        dispatches(subcommand, going_on.0, going_on.1),
{
    match subcommand {
        SubCommand::Status => (
            State::Authorizing { request: Authorized::ListWorkers },
            Action::FindAuthCookie,
        ),
        SubCommand::Pkgs(Pkgs::Sync(sync)) => (
            State::Authorizing { request: Authorized::Sync(sync) },
            Action::FindAuthCookie,
        ),
        SubCommand::Pkgs(Pkgs::SyncProfile(request)) => (
            State::LoadingProfiles { profile: request.profile, print_json: request.print_json },
            Action::LoadProfiles(request.config_file),
        ),
        SubCommand::Pkgs(Pkgs::Ls(ls)) => (
            State::Listing { form: form(ls.json, Form::Pkgs) },
            Action::ListPkgs(
                ListPkgs {
                    name: ls.name,
                    status: ls.status,
                    distro: ls.distro,
                    suite: ls.suite,
                    architecture: ls.architecture,
                },
            ),
        ),
        SubCommand::Queue(Queue::Ls(ls)) => (
            State::Listing { form: form(ls.json, Form::Queue) },
            Action::ListQueue(ListQueue { limit: queue_limit(ls.head) }),
        ),
        SubCommand::Queue(Queue::Push(push)) => (
            State::Authorizing {
                request: Authorized::PushQueue(
                    PushQueue {
                        name: push.name,
                        version: push.version,
                        distro: push.distro,
                        suite: push.suite,
                        architecture: push.architecture,
                    },
                ),
            },
            Action::FindAuthCookie,
        ),
        SubCommand::Queue(Queue::Delete(delete)) => (
            State::Authorizing {
                request: Authorized::DropQueueItem(
                    DropQueueItem {
                        name: delete.name,
                        version: delete.version,
                        distro: delete.distro,
                        suite: delete.suite,
                        architecture: delete.architecture,
                    },
                ),
            },
            Action::FindAuthCookie,
        ),
        SubCommand::Completions(completions) => (
            State::Finishing,
            Action::GenCompletions(completions),
        ),
    }
}

/// The form in which a command prints a list.
fn form(json: bool, table: Form) -> (form: Form)
    ensures
        form == chosen_form(json, table),
{
    if json {
        Form::Json
    } else {
        table
    }
}

/// With the auth cookie at hand, `request` goes on in `next` with `action`. The patterns of a
/// sync profile are compiled now, so a missing cookie is reported before a bad pattern.
pub open spec fn authorizes<D>(request: Authorized, next: State, action: Action<D>) -> bool {
    match request {
        Authorized::ListWorkers => {
            &&& next == State::Listing { form: Form::Workers }
            &&& action == Action::<D>::ListWorkers
        },
        Authorized::Sync(sync) => {
            &&& next == State::Scheduling { sync }
            &&& action == Action::<D>::Schedule(sync.distro)
        },
        Authorized::SyncProfile(profile, print_json) => match (next, action) {
            (State::Scheduling { sync }, Action::Schedule(distro)) => {
                &&& sync_of_profile(profile, print_json, Ok(sync))
                &&& distro == sync.distro
            },
            (State::Failed, Action::Fail(error)) => sync_of_profile(
                profile,
                print_json,
                Err(error),
            ),
            _ => false,
        },
        Authorized::PushQueue(push) => {
            &&& next == State::Finishing
            &&& action == Action::<D>::PushQueue(push)
        },
        Authorized::DropQueueItem(item) => {
            &&& next == State::Finishing
            &&& action == Action::<D>::DropQueueItem(item)
        },
    }
}

/// Goes on with `request` once the auth cookie is at hand.
pub fn authorize<D>(request: Authorized) -> (going_on: (State, Action<D>))
    ensures
        authorizes(request, going_on.0, going_on.1),
{
    match request {
        Authorized::ListWorkers => (State::Listing { form: Form::Workers }, Action::ListWorkers),
        Authorized::Sync(sync) => {
            let distro = sync.distro;
            (State::Scheduling { sync }, Action::Schedule(distro))
        },
        Authorized::SyncProfile(profile, print_json) => match profile_sync(profile, print_json) {
            Ok(sync) => {
                let distro = sync.distro;
                (State::Scheduling { sync }, Action::Schedule(distro))
            },
            Err(error) => (State::Failed, Action::Fail(error)),
        },
        Authorized::PushQueue(push) => (State::Finishing, Action::PushQueue(push)),
        Authorized::DropQueueItem(item) => (State::Finishing, Action::DropQueueItem(item)),
    }
}

/// What is done with the packages of a distribution.
pub open spec fn sync_step<D>(action: SyncAction<D>) -> Action<D> {
    match action {
        SyncAction::PrintJson(pkgs) => Action::PrintJson(pkgs),
        SyncAction::SyncSuite(import) => Action::SyncSuite(import),
    }
}

/// What is done with a list that is to be printed in `form`.
pub open spec fn print_step<D>(form: Form, list: D) -> Action<D> {
    match form {
        Form::Workers => Action::PrintWorkers(list),
        Form::Pkgs => Action::PrintPkgs(list),
        Form::Queue => Action::PrintQueue(list),
        Form::Json => Action::PrintJson(list),
    }
}

/// The error that a failure while waiting in `state` comes to.
pub open spec fn failure_in(state: State, failure: Failure) -> Error {
    if state is LoadingConfig {
        Error::Config(failure)
    } else {
        Error::Outside(failure)
    }
}

/// A command that waited in `state` until `event` happened goes on in `next` with `action`.
pub open spec fn follows<D>(
    state: State,
    event: Event<D>,
    next: State,
    action: Action<D>,
) -> bool {
    match (state, event) {
        (_, Event::Failed(failure)) => {
            &&& next == State::Failed
            &&& action == Action::<D>::Fail(failure_in(state, failure))
        },
        (State::Coloring { config, endpoint, subcommand }, Event::Done) => {
            &&& next == State::LoadingConfig { endpoint, subcommand }
            &&& action == Action::<D>::LoadConfig(config)
        },
        (State::LoadingConfig { endpoint, subcommand }, Event::ConfigLoaded(configured)) => {
            &&& next == State::Connecting { subcommand }
            &&& action is Connect
            &&& action->Connect_0@ == spec_endpoint(endpoint, configured)
        },
        (State::Connecting { subcommand }, Event::Done) => dispatches(subcommand, next, action),
        (State::LoadingProfiles { profile, print_json }, Event::ProfilesLoaded(config)) => {
            if config@.contains_key(profile@) {
                &&& next == State::Authorizing {
                    request: Authorized::SyncProfile(config@[profile@], print_json),
                }
                &&& action == Action::<D>::FindAuthCookie
            } else {
                &&& next == State::Failed
                &&& action == Action::<D>::Fail(Error::ProfileNotFound(profile))
            }
        },
        (State::Authorizing { request }, Event::Done) => authorizes(request, next, action),
        (State::Scheduling { sync }, Event::Received(pkgs)) => {
            &&& next == State::Finishing
            &&& action == sync_step(spec_sync(sync, pkgs))
        },
        (State::Listing { form }, Event::Received(list)) => {
            &&& next == State::Finishing
            &&& action == print_step(form, list)
        },
        (State::Finishing, Event::Done) => {
            &&& next == State::Finished
            &&& action == Action::<D>::Finish
        },
        _ => false,
    }
}

/// Decides how a command goes on that waited in `state` until `event` happened.
pub fn step<D>(state: State, event: Event<D>) -> (going_on: (State, Action<D>))
    requires
        expected(state, event),
    ensures
        follows(state, event, going_on.0, going_on.1),
{
    match (state, event) {
        (State::LoadingConfig { .. }, Event::Failed(failure)) => (
            State::Failed,
            Action::Fail(Error::Config(failure)),
        ),
        (_, Event::Failed(failure)) => (State::Failed, Action::Fail(Error::Outside(failure))),
        (State::Coloring { config, endpoint, subcommand }, Event::Done) => (
            State::LoadingConfig { endpoint, subcommand },
            Action::LoadConfig(config),
        ),
        (State::LoadingConfig { endpoint: given, subcommand }, Event::ConfigLoaded(configured)) => (
            State::Connecting { subcommand },
            Action::Connect(endpoint(given, configured)),
        ),
        (State::Connecting { subcommand }, Event::Done) => dispatch(subcommand),
        (
            State::LoadingProfiles { profile, print_json },
            Event::ProfilesLoaded(config),
        ) => match config.take_profile(profile) {
            Ok(profile) => (
                State::Authorizing { request: Authorized::SyncProfile(profile, print_json) },
                Action::FindAuthCookie,
            ),
            Err(error) => (State::Failed, Action::Fail(error)),
        },
        (State::Authorizing { request }, Event::Done) => authorize(request),
        (State::Scheduling { sync: request }, Event::Received(pkgs)) => {
            let action = match sync(request, pkgs) {
                SyncAction::PrintJson(pkgs) => Action::PrintJson(pkgs),
                SyncAction::SyncSuite(import) => Action::SyncSuite(import),
            };
            (State::Finishing, action)
        },
        (State::Listing { form }, Event::Received(list)) => {
            let action = match form {
                Form::Workers => Action::PrintWorkers(list),
                Form::Pkgs => Action::PrintPkgs(list),
                Form::Queue => Action::PrintQueue(list),
                Form::Json => Action::PrintJson(list),
            };
            (State::Finishing, action)
        },
        (State::Finishing, Event::Done) => (State::Finished, Action::Finish),
        _ => vstd::pervasive::unreached(),
    }
}

} // verus!
