//! What a command does, step by step, told by what it was called with and by what happened.

use crate::api::{DropQueueItem, ListPkgs, ListQueue, PushQueue, SuiteImport};
use crate::command::{Args, Pkgs, PkgsSyncProfile, Queue, SubCommand};
use crate::error::{Error, Failure};
use crate::laws::{found_profile, is_run, lemma_state_fits_action, waits_for};
use crate::pattern::{compiled_pattern, glob_outcome, pattern_source, refused_at, refused_with};
use crate::profile::SyncProfile;
use crate::run::{expected, follows, start, starts, step, Action, Authorized, Event, Form, State};
use crate::sync::{sync_of_profile, PkgsSync};
use glob::{Pattern, PatternError};
use vstd::prelude::*;

verus! {

/// What [`start`] and [`step`] do one after the other is a run.
pub proof fn lemma_steps_make_a_run<D>(
    args: Args,
    states: Seq<State>,
    actions: Seq<Action<D>>,
    events: Seq<Event<D>>,
)
    requires
        states.len() == events.len() + 1,
        actions.len() == events.len() + 1,
        call_ensures(start::<D>, (args,), (states[0], actions[0])),
        forall|i: int| 0 <= i < events.len() ==> expected(states[i], #[trigger] events[i]),
        forall|i: int|
            0 <= i < events.len() ==> call_ensures(
                step::<D>,
                (states[i], #[trigger] events[i]),
                (states[i + 1], actions[i + 1]),
            ),
    ensures
        is_run(args, states, actions, events),
{
}

/// A command can always go on: whatever an action can come to is accepted.
pub proof fn lemma_outcomes_are_accepted<D>(
    args: Args,
    states: Seq<State>,
    actions: Seq<Action<D>>,
    events: Seq<Event<D>>,
    event: Event<D>,
)
    requires
        is_run(args, states, actions, events),
        match actions.last() {
            Action::ForceColors | Action::Connect(_) => event is Done,
            Action::LoadConfig(_) => event is ConfigLoaded || event is Failed,
            Action::LoadProfiles(_) => event is ProfilesLoaded || event is Failed,
            Action::Schedule(_)
            | Action::ListWorkers
            | Action::ListPkgs(_)
            | Action::ListQueue(_) => event is Received || event is Failed,
            Action::Finish | Action::Fail(_) => false,
            _ => event is Done || event is Failed,
        },
    ensures
        call_requires(step::<D>, (states.last(), event)),
{
    lemma_state_fits_action(args, states, actions, events, states.len() - 1);
}

/// Where a command stands that was called with `args`, told in full.
spec fn stands<D>(args: Args, events: Seq<Event<D>>, state: State) -> bool {
    match state {
        State::Coloring { config, endpoint, subcommand } => {
            &&& args.color
            &&& config == args.config
            &&& endpoint == args.endpoint
            &&& subcommand == args.subcommand
        },
        State::LoadingConfig { endpoint, subcommand } => {
            &&& endpoint == args.endpoint
            &&& subcommand == args.subcommand
        },
        State::Connecting { subcommand } => subcommand == args.subcommand,
        State::LoadingProfiles { profile, print_json } => {
            &&& args.subcommand matches SubCommand::Pkgs(Pkgs::SyncProfile(request))
            &&& profile == request.profile
            &&& print_json == request.print_json
        },
        State::Authorizing { request: Authorized::ListWorkers } => args.subcommand is Status,
        State::Authorizing { request: Authorized::Sync(sync) } => args.subcommand
            == SubCommand::Pkgs(Pkgs::Sync(sync)),
        State::Authorizing { request: Authorized::SyncProfile(profile, print_json) } => {
            &&& args.subcommand matches SubCommand::Pkgs(Pkgs::SyncProfile(request))
            &&& found_profile(events, request.profile@, profile)
            &&& print_json == request.print_json
        },
        State::Authorizing { request: Authorized::PushQueue(sent) } => {
            &&& args.subcommand matches SubCommand::Queue(Queue::Push(push))
            &&& sent.name == push.name
            &&& sent.version == push.version
            &&& sent.distro == push.distro
            &&& sent.suite == push.suite
            &&& sent.architecture == push.architecture
        },
        State::Authorizing { request: Authorized::DropQueueItem(sent) } => {
            &&& args.subcommand matches SubCommand::Queue(Queue::Delete(delete))
            &&& sent.name == delete.name
            &&& sent.version == delete.version
            &&& sent.distro == delete.distro
            &&& sent.suite == delete.suite
            &&& sent.architecture == delete.architecture
        },
        State::Scheduling { sync } => schedules(args, events, sync),
        State::Listing { form } => match args.subcommand {
            SubCommand::Status => form == Form::Workers,
            SubCommand::Pkgs(Pkgs::Ls(ls)) => form == if ls.json {
                Form::Json
            } else {
                Form::Pkgs
            },
            SubCommand::Queue(Queue::Ls(ls)) => form == if ls.json {
                Form::Json
            } else {
                Form::Queue
            },
            _ => false,
        },
        State::Finishing | State::Finished | State::Failed => true,
    }
}

/// `sync` is what a command that was called with `args` syncs.
spec fn schedules<D>(args: Args, events: Seq<Event<D>>, sync: PkgsSync) -> bool {
    match args.subcommand {
        SubCommand::Pkgs(Pkgs::Sync(given)) => sync == given,
        SubCommand::Pkgs(Pkgs::SyncProfile(request)) => exists|profile: SyncProfile|
            {
                &&& #[trigger] found_profile(events, request.profile@, profile)
                &&& sync_of_profile(profile, request.print_json, Ok(sync))
            },
        _ => false,
    }
}

proof fn lemma_stands<D>(
    args: Args,
    states: Seq<State>,
    actions: Seq<Action<D>>,
    events: Seq<Event<D>>,
    i: int,
)
    requires
        is_run(args, states, actions, events),
        0 <= i < states.len(),
    ensures
        stands(args, events, states[i]),
    decreases i,
{
    if i > 0 {
        lemma_stands(args, states, actions, events, i - 1);
        let event = events[i - 1];
        assert(expected(states[i - 1], event));
        assert(follows(states[i - 1], event, states[i], actions[i]));
        if states[i - 1] is LoadingProfiles && event is ProfilesLoaded && states[i]
            is Authorizing {
            let config = event->ProfilesLoaded_0;
            let name = states[i - 1]->LoadingProfiles_profile;
            assert(events[i - 1]->ProfilesLoaded_0@[name@] == config@[name@]);
            assert(found_profile(events, name@, config@[name@]));
        }
        if states[i] is Scheduling && states[i - 1] is Authorizing {
            let request = states[i - 1]->Authorizing_request;
            if let Authorized::SyncProfile(profile, print_json) = request {
                let wanted = args.subcommand->Pkgs_0->SyncProfile_0.profile@;
                assert(found_profile(events, wanted, profile));
                assert(sync_of_profile(
                    profile,
                    print_json,
                    Ok(states[i]->Scheduling_sync),
                ));
            }
        }
    }
}

/// What is known of a run between the `i`-th action and the next.
proof fn lemma_at<D>(
    args: Args,
    states: Seq<State>,
    actions: Seq<Action<D>>,
    events: Seq<Event<D>>,
    i: int,
)
    requires
        is_run(args, states, actions, events),
        0 <= i < events.len(),
    ensures
        stands(args, events, states[i]),
        stands(args, events, states[i + 1]),
        waits_for(states[i], actions[i]),
        waits_for(states[i + 1], actions[i + 1]),
        expected(states[i], events[i]),
        follows(states[i], events[i], states[i + 1], actions[i + 1]),
{
    let event = events[i];
    lemma_stands(args, states, actions, events, i);
    lemma_stands(args, states, actions, events, i + 1);
    lemma_state_fits_action(args, states, actions, events, i);
    lemma_state_fits_action(args, states, actions, events, i + 1);
}

/// A command starts by forcing colors, if and only if it is told to, and then loads the config
/// file that it was given. It does neither a second time.
pub proof fn lemma_config_file_is_the_given_one<D>(
    args: Args,
    states: Seq<State>,
    actions: Seq<Action<D>>,
    events: Seq<Event<D>>,
    i: int,
)
    requires
        is_run(args, states, actions, events),
        0 <= i < actions.len(),
    ensures
        actions[i] is ForceColors <==> args.color && i == 0,
        actions[i] is LoadConfig <==> i == if args.color {
            1int
        } else {
            0
        },
        actions[i] matches Action::LoadConfig(path) ==> path == args.config,
{
    if i > 0 {
        lemma_at(args, states, actions, events, i - 1);
        lemma_config_course(args, states, actions, events, i);
    }
}

proof fn lemma_config_course<D>(
    args: Args,
    states: Seq<State>,
    actions: Seq<Action<D>>,
    events: Seq<Event<D>>,
    i: int,
)
    requires
        is_run(args, states, actions, events),
        0 < i < actions.len(),
    ensures
        args.color && i == 1 ==> states[i] is LoadingConfig && actions[i]
            == Action::<D>::LoadConfig(args.config),
        i > 1 || !args.color ==> !(states[i] is LoadingConfig),
        !(states[i] is Coloring),
    decreases i,
{
    lemma_at(args, states, actions, events, i - 1);
    if i > 1 {
        lemma_config_course(args, states, actions, events, i - 1);
    }
}

/// A command connects right after the config file was loaded, and to the right daemon: the one of
/// the command line if one is given there, else the one of the config file if one is given there,
/// else the one on this machine.
pub proof fn lemma_connects_to_the_right_daemon<D>(
    args: Args,
    states: Seq<State>,
    actions: Seq<Action<D>>,
    events: Seq<Event<D>>,
    i: int,
    url: String,
)
    requires
        is_run(args, states, actions, events),
        0 <= i < actions.len(),
        actions[i] == Action::<D>::Connect(url),
    ensures
        i > 0,
        events[i - 1] is ConfigLoaded,
        args.endpoint matches Some(given) ==> url@ == given@,
        args.endpoint is None ==> (events[i - 1]->ConfigLoaded_0 matches Some(configured)
            ==> url@ == configured@),
        args.endpoint is None && events[i - 1]->ConfigLoaded_0 is None ==> url@
            == "http://127.0.0.1:8080"@,
{
    if i > 0 {
        lemma_at(args, states, actions, events, i - 1);
    }
}

/// Once the config file is loaded, a command connects.
pub proof fn lemma_loaded_config_leads_to_a_daemon<D>(
    args: Args,
    states: Seq<State>,
    actions: Seq<Action<D>>,
    events: Seq<Event<D>>,
    i: int,
)
    requires
        is_run(args, states, actions, events),
        0 <= i < events.len(),
        events[i] is ConfigLoaded,
    ensures
        actions[i + 1] is Connect,
{
    lemma_at(args, states, actions, events, i);
}

/// What comes right after the client was set up: a list or completions at once, the sync config
/// for a profile, and the auth cookie for the rest.
pub proof fn lemma_what_follows_the_client<D>(
    args: Args,
    states: Seq<State>,
    actions: Seq<Action<D>>,
    events: Seq<Event<D>>,
    i: int,
)
    requires
        is_run(args, states, actions, events),
        0 <= i < events.len(),
        actions[i] is Connect,
    ensures
        match args.subcommand {
            SubCommand::Pkgs(Pkgs::Ls(_)) => actions[i + 1] is ListPkgs,
            SubCommand::Queue(Queue::Ls(_)) => actions[i + 1] is ListQueue,
            SubCommand::Completions(_) => actions[i + 1] is GenCompletions,
            SubCommand::Pkgs(Pkgs::SyncProfile(_)) => actions[i + 1] is LoadProfiles,
            _ => actions[i + 1] is FindAuthCookie,
        },
{
    lemma_at(args, states, actions, events, i);
}

/// Packages are only listed by the command that lists them, by all the criteria that it was given
/// and by no other.
pub proof fn lemma_packages_are_listed_by_the_given_criteria<D>(
    args: Args,
    states: Seq<State>,
    actions: Seq<Action<D>>,
    events: Seq<Event<D>>,
    i: int,
    query: ListPkgs,
)
    requires
        is_run(args, states, actions, events),
        0 <= i < actions.len(),
        actions[i] == Action::<D>::ListPkgs(query),
    ensures
        args.subcommand matches SubCommand::Pkgs(Pkgs::Ls(ls)) && {
            &&& query.name == ls.name
            &&& query.status == ls.status
            &&& query.distro == ls.distro
            &&& query.suite == ls.suite
            &&& query.architecture == ls.architecture
        },
{
    if i > 0 {
        lemma_at(args, states, actions, events, i - 1);
    }
}

/// The queue is only listed by the command that lists it: its first 25 items if its head is asked
/// for, else all of it.
pub proof fn lemma_queue_is_listed_as_far_as_asked<D>(
    args: Args,
    states: Seq<State>,
    actions: Seq<Action<D>>,
    events: Seq<Event<D>>,
    i: int,
    query: ListQueue,
)
    requires
        is_run(args, states, actions, events),
        0 <= i < actions.len(),
        actions[i] == Action::<D>::ListQueue(query),
    ensures
        args.subcommand matches SubCommand::Queue(Queue::Ls(ls)) && {
            &&& ls.head ==> query.limit == Some(25i64)
            &&& !ls.head ==> query.limit is None
        },
{
    if i > 0 {
        lemma_at(args, states, actions, events, i - 1);
    }
}

/// Workers are only listed by the command that shows them, and completions are only printed by
/// the command for that, for the shell that it was given.
pub proof fn lemma_workers_and_completions_are_asked_for<D>(
    args: Args,
    states: Seq<State>,
    actions: Seq<Action<D>>,
    events: Seq<Event<D>>,
    i: int,
)
    requires
        is_run(args, states, actions, events),
        0 <= i < actions.len(),
    ensures
        actions[i] is ListWorkers ==> args.subcommand is Status,
        actions[i] matches Action::GenCompletions(completions) ==> args.subcommand
            == SubCommand::Completions(completions),
{
    if i > 0 {
        lemma_at(args, states, actions, events, i - 1);
    }
}

/// A package is only put into the queue by the command for that, as it was given.
pub proof fn lemma_queue_gets_the_given_package<D>(
    args: Args,
    states: Seq<State>,
    actions: Seq<Action<D>>,
    events: Seq<Event<D>>,
    i: int,
    sent: PushQueue,
)
    requires
        is_run(args, states, actions, events),
        0 <= i < actions.len(),
        actions[i] == Action::<D>::PushQueue(sent),
    ensures
        args.subcommand matches SubCommand::Queue(Queue::Push(push)) && {
            &&& sent.name == push.name
            &&& sent.version == push.version
            &&& sent.distro == push.distro
            &&& sent.suite == push.suite
            &&& sent.architecture == push.architecture
        },
{
    if i > 0 {
        lemma_at(args, states, actions, events, i - 1);
    }
}

/// A package is only taken out of the queue by the command for that, as it was given.
pub proof fn lemma_queue_loses_the_given_package<D>(
    args: Args,
    states: Seq<State>,
    actions: Seq<Action<D>>,
    events: Seq<Event<D>>,
    i: int,
    sent: DropQueueItem,
)
    requires
        is_run(args, states, actions, events),
        0 <= i < actions.len(),
        actions[i] == Action::<D>::DropQueueItem(sent),
    ensures
        args.subcommand matches SubCommand::Queue(Queue::Delete(delete)) && {
            &&& sent.name == delete.name
            &&& sent.version == delete.version
            &&& sent.distro == delete.distro
            &&& sent.suite == delete.suite
            &&& sent.architecture == delete.architecture
        },
{
    if i > 0 {
        lemma_at(args, states, actions, events, i - 1);
    }
}

/// What comes right after the auth cookie was found. For a profile it is the schedule or, if a
/// pattern of the profile is not a glob, the error.
pub proof fn lemma_what_follows_the_cookie<D>(
    args: Args,
    states: Seq<State>,
    actions: Seq<Action<D>>,
    events: Seq<Event<D>>,
    i: int,
)
    requires
        is_run(args, states, actions, events),
        0 <= i < events.len(),
        actions[i] is FindAuthCookie,
        events[i] is Done,
    ensures
        match args.subcommand {
            SubCommand::Status => actions[i + 1] is ListWorkers,
            SubCommand::Pkgs(Pkgs::Sync(_)) => actions[i + 1] is Schedule,
            SubCommand::Pkgs(Pkgs::SyncProfile(_)) => actions[i + 1] is Schedule || (actions[i
                + 1] matches Action::Fail(error) && error is Pattern),
            SubCommand::Queue(Queue::Push(_)) => actions[i + 1] is PushQueue,
            SubCommand::Queue(Queue::Delete(_)) => actions[i + 1] is DropQueueItem,
            _ => false,
        },
{
    lemma_at(args, states, actions, events, i);
}

/// The sync config is loaded from the file that was given. If it has the profile that was asked
/// for, the auth cookie is next; else the command fails and says which profile is missing.
pub proof fn lemma_profile_is_looked_up_by_its_name<D>(
    args: Args,
    states: Seq<State>,
    actions: Seq<Action<D>>,
    events: Seq<Event<D>>,
    i: int,
    file: String,
)
    requires
        is_run(args, states, actions, events),
        0 <= i < actions.len(),
        actions[i] == Action::<D>::LoadProfiles(file),
    ensures
        args.subcommand matches SubCommand::Pkgs(Pkgs::SyncProfile(request)) && {
            &&& file == request.config_file
            &&& i < events.len() && events[i] is ProfilesLoaded ==> {
                let config = events[i]->ProfilesLoaded_0;
                &&& config@.contains_key(request.profile@) ==> actions[i + 1] is FindAuthCookie
                &&& !config@.contains_key(request.profile@) ==> actions[i + 1]
                    == Action::<D>::Fail(Error::ProfileNotFound(request.profile))
            }
        },
{
    if i > 0 {
        lemma_at(args, states, actions, events, i - 1);
    }
    if i < events.len() {
        lemma_at(args, states, actions, events, i);
    }
}

/// A sync that was given on the command line is scheduled as it was given, down to the source,
/// the maintainers and the patterns, and for its own distribution.
pub proof fn lemma_given_sync_is_scheduled<D>(
    args: Args,
    states: Seq<State>,
    actions: Seq<Action<D>>,
    events: Seq<Event<D>>,
    i: int,
    given: PkgsSync,
    scheduled: PkgsSync,
)
    requires
        is_run(args, states, actions, events),
        0 <= i < actions.len(),
        args.subcommand == SubCommand::Pkgs(Pkgs::Sync(given)),
        states[i] == (State::Scheduling { sync: scheduled }),
    ensures
        scheduled == given,
        actions[i] == Action::<D>::Schedule(given.distro),
{
    lemma_stands(args, states, actions, events, i);
    lemma_state_fits_action(args, states, actions, events, i);
}

/// A sync of a profile schedules what the profile says, and nothing else: the profile that was
/// found under the given name in the sync config, with its distribution, suite, architecture,
/// source and maintainers, and with the texts of all its patterns, in their order.
pub proof fn lemma_profile_is_scheduled_in_full<D>(
    args: Args,
    states: Seq<State>,
    actions: Seq<Action<D>>,
    events: Seq<Event<D>>,
    i: int,
    name: String,
    config_file: String,
    print_json: bool,
    scheduled: PkgsSync,
) -> (profile: SyncProfile)
    requires
        is_run(args, states, actions, events),
        0 <= i < actions.len(),
        args.subcommand == SubCommand::Pkgs(
            Pkgs::SyncProfile(
                PkgsSyncProfile { profile: name, config_file, print_json },
            ),
        ),
        states[i] == (State::Scheduling { sync: scheduled }),
    ensures
        exists|j: int|
            {
                &&& 0 <= j < i
                &&& #[trigger] events[j] is ProfilesLoaded
                &&& events[j]->ProfilesLoaded_0@.contains_key(name@)
                &&& events[j]->ProfilesLoaded_0@[name@] == profile
            },
        actions[i] == Action::<D>::Schedule(profile.distro),
        scheduled.distro == profile.distro,
        scheduled.suite == profile.suite,
        scheduled.architecture == profile.architecture,
        scheduled.source == profile.source,
        scheduled.maintainers == profile.maintainers,
        scheduled.print_json == print_json,
        scheduled.pkgs@.len() == profile.pkgs@.len(),
        forall|k: int|
            0 <= k < profile.pkgs@.len() ==> pattern_source(#[trigger] scheduled.pkgs@[k])
                == profile.pkgs@[k]@,
        scheduled.excludes@.len() == profile.excludes@.len(),
        forall|k: int|
            0 <= k < profile.excludes@.len() ==> pattern_source(#[trigger] scheduled.excludes@[k])
                == profile.excludes@[k]@,
{
    lemma_state_fits_action(args, states, actions, events, i);
    assert(i > 0);
    lemma_at(args, states, actions, events, i - 1);
    assert(states[i - 1] is Authorizing);
    assert(i > 1);
    lemma_at(args, states, actions, events, i - 2);
    let request = states[i - 1]->Authorizing_request;
    let profile = request->SyncProfile_0;
    let config = events[i - 2]->ProfilesLoaded_0;
    assert(states[i - 2] is LoadingProfiles);
    assert(events[i - 2] is ProfilesLoaded);
    assert(config@[name@] == profile);
    assert(sync_of_profile(profile, print_json, Ok(scheduled)));
    assert forall|k: int| 0 <= k < profile.pkgs@.len() implies pattern_source(
        #[trigger] scheduled.pkgs@[k],
    ) == profile.pkgs@[k]@ by {
        assert(glob_outcome(profile.pkgs@[k]@, Ok(scheduled.pkgs@[k])));
    }
    assert forall|k: int| 0 <= k < profile.excludes@.len() implies pattern_source(
        #[trigger] scheduled.excludes@[k],
    ) == profile.excludes@[k]@ by {
        assert(glob_outcome(profile.excludes@[k]@, Ok(scheduled.excludes@[k])));
    }
    profile
}

/// The packages of a distribution are collected for one that is being synced, and for nothing
/// else.
pub proof fn lemma_only_syncs_schedule<D>(
    args: Args,
    states: Seq<State>,
    actions: Seq<Action<D>>,
    events: Seq<Event<D>>,
    i: int,
)
    requires
        is_run(args, states, actions, events),
        0 <= i < actions.len(),
        actions[i] is Schedule,
    ensures
        states[i] is Scheduling,
        args.subcommand is Pkgs && !(args.subcommand->Pkgs_0 is Ls),
{
    lemma_state_fits_action(args, states, actions, events, i);
    lemma_stands(args, states, actions, events, i);
}

/// Once the packages of a distribution are collected, they are printed if that was asked for, and
/// else sent, together with the distribution, the suite and the architecture that were scheduled.
pub proof fn lemma_collected_packages_are_printed_or_sent<D>(
    args: Args,
    states: Seq<State>,
    actions: Seq<Action<D>>,
    events: Seq<Event<D>>,
    i: int,
    scheduled: PkgsSync,
    pkgs: D,
)
    requires
        is_run(args, states, actions, events),
        0 <= i < events.len(),
        states[i] == (State::Scheduling { sync: scheduled }),
        events[i] == Event::Received(pkgs),
    ensures
        scheduled.print_json ==> actions[i + 1] == Action::PrintJson(pkgs),
        !scheduled.print_json ==> actions[i + 1] == Action::SyncSuite(
            SuiteImport {
                distro: scheduled.distro,
                suite: scheduled.suite,
                architecture: scheduled.architecture,
                pkgs,
            },
        ),
        args.subcommand matches SubCommand::Pkgs(Pkgs::Sync(given)) ==> scheduled.print_json
            == given.print_json,
        args.subcommand matches SubCommand::Pkgs(Pkgs::SyncProfile(request))
            ==> scheduled.print_json == request.print_json,
{
    lemma_at(args, states, actions, events, i);
}

/// A list that the daemon gave is printed as JSON if that was asked for, and else as the table of
/// what was listed.
pub proof fn lemma_lists_are_printed_as_asked<D>(
    args: Args,
    states: Seq<State>,
    actions: Seq<Action<D>>,
    events: Seq<Event<D>>,
    i: int,
    list: D,
)
    requires
        is_run(args, states, actions, events),
        0 <= i < events.len(),
        events[i] == Event::Received(list),
    ensures
        actions[i] is ListWorkers ==> actions[i + 1] == Action::PrintWorkers(list),
        actions[i] is ListPkgs ==> (args.subcommand matches SubCommand::Pkgs(Pkgs::Ls(ls)) && {
            &&& ls.json ==> actions[i + 1] == Action::PrintJson(list)
            &&& !ls.json ==> actions[i + 1] == Action::PrintPkgs(list)
        }),
        actions[i] is ListQueue ==> (args.subcommand matches SubCommand::Queue(Queue::Ls(ls)) && {
            &&& ls.json ==> actions[i + 1] == Action::PrintJson(list)
            &&& !ls.json ==> actions[i + 1] == Action::PrintQueue(list)
        }),
{
    lemma_at(args, states, actions, events, i);
    if i > 0 {
        lemma_at(args, states, actions, events, i - 1);
    }
}

/// Once the last thing is done, the command exits with success, and only then.
pub proof fn lemma_done_means_success<D>(
    args: Args,
    states: Seq<State>,
    actions: Seq<Action<D>>,
    events: Seq<Event<D>>,
    i: int,
)
    requires
        is_run(args, states, actions, events),
        0 <= i < events.len(),
    ensures
        actions[i + 1] is Finish <==> events[i] is Done && (actions[i] is SyncSuite || actions[i]
            is PushQueue || actions[i] is DropQueueItem || actions[i] is PrintJson || actions[i]
            is PrintWorkers || actions[i] is PrintPkgs || actions[i] is PrintQueue || actions[i]
            is GenCompletions),
{
    lemma_at(args, states, actions, events, i);
}

/// A failure is reported as it happened, and one of loading the config file as such.
pub proof fn lemma_failures_are_reported_as_they_happened<D>(
    args: Args,
    states: Seq<State>,
    actions: Seq<Action<D>>,
    events: Seq<Event<D>>,
    i: int,
    failure: Failure,
)
    requires
        is_run(args, states, actions, events),
        0 <= i < events.len(),
        events[i] == Event::<D>::Failed(failure),
    ensures
        actions[i] is LoadConfig ==> actions[i + 1] == Action::<D>::Fail(Error::Config(failure)),
        !(actions[i] is LoadConfig) ==> actions[i + 1] == Action::<D>::Fail(
            Error::Outside(failure),
        ),
{
    lemma_at(args, states, actions, events, i);
}

/// A command only fails if something failed, if the profile is not there, or if a pattern of the
/// profile is refused by `glob`.
pub proof fn lemma_nothing_fails_without_a_reason<D>(
    args: Args,
    states: Seq<State>,
    actions: Seq<Action<D>>,
    events: Seq<Event<D>>,
    i: int,
    error: Error,
)
    requires
        is_run(args, states, actions, events),
        0 <= i < actions.len(),
        actions[i] == Action::<D>::Fail(error),
    ensures
        i > 0,
        match error {
            Error::Config(failure) => actions[i - 1] is LoadConfig && events[i - 1]
                == Event::<D>::Failed(failure),
            Error::Outside(failure) => !(actions[i - 1] is LoadConfig) && events[i - 1]
                == Event::<D>::Failed(failure),
            Error::ProfileNotFound(name) => {
                &&& args.subcommand matches SubCommand::Pkgs(Pkgs::SyncProfile(request))
                &&& name == request.profile
                &&& events[i - 1] is ProfilesLoaded
                &&& !events[i - 1]->ProfilesLoaded_0@.contains_key(name@)
            },
            Error::Pattern(refusal) => {
                &&& args.subcommand matches SubCommand::Pkgs(Pkgs::SyncProfile(request))
                &&& exists|profile: SyncProfile, k: int|
                    {
                        &&& #[trigger] found_profile(events, request.profile@, profile)
                        &&& #[trigger] is_pattern_of(profile, k, refusal)
                    }
            },
        },
{
    if i > 0 {
        lemma_at(args, states, actions, events, i - 1);
        if let Error::Pattern(refusal) = error {
            let profile = states[i - 1]->Authorizing_request->SyncProfile_0;
            assert(sync_of_profile(
                profile,
                states[i - 1]->Authorizing_request->SyncProfile_1,
                Err(error),
            ));
            lemma_refused_profile(profile, refusal);
            let k = choose|k: int| is_pattern_of(profile, k, refusal);
            assert(is_pattern_of(profile, k, refusal));
        }
    }
}

/// The `k`-th pattern of `profile`, packages before excludes, is refused with `refusal`.
pub open spec fn is_pattern_of(profile: SyncProfile, k: int, refusal: PatternError) -> bool {
    let all = profile.pkgs@ + profile.excludes@;
    0 <= k < all.len() && (compiled_pattern(all[k]@, false) == Err::<Pattern, PatternError>(
        refusal,
    ) || compiled_pattern(all[k]@, true) == Err::<Pattern, PatternError>(refusal))
}

proof fn lemma_refused_profile(profile: SyncProfile, refusal: PatternError)
    requires
        sync_of_profile(profile, true, Err(Error::Pattern(refusal))) || sync_of_profile(
            profile,
            false,
            Err(Error::Pattern(refusal)),
        ),
    ensures
        exists|k: int| is_pattern_of(profile, k, refusal),
{
    let all = profile.pkgs@ + profile.excludes@;
    if refused_with(profile.pkgs@, refusal) {
        let k = choose|k: int| refused_at(profile.pkgs@, k, refusal);
        assert(all[k] == profile.pkgs@[k]);
        assert(is_pattern_of(profile, k, refusal));
    } else {
        let k = choose|k: int| refused_at(profile.excludes@, k, refusal);
        assert(refused_at(profile.excludes@, k, refusal));
        assert(all[profile.pkgs@.len() + k] == profile.excludes@[k]);
        assert(is_pattern_of(profile, profile.pkgs@.len() + k, refusal));
    }
}

} // verus!
