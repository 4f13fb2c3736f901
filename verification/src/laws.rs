//! What holds of every run of a command, however the outside world behaves.

pub mod course;
pub mod tables;
pub mod values;

use crate::api::QueueItem;
use crate::command::{Args, Pkgs, Queue, SubCommand};
use crate::error::{report_lines, Error, Failure};
use crate::paint::{painted, reset, restyled};
use crate::pattern::{accepted, compiled_from, glob_outcome, refused_at, sources};
use crate::profile::SyncProfile;
use crate::run::{
    authorizes, expected, failure_in, follows, print_step, starts, sync_step, Action, Authorized,
    Event, State,
};
use crate::sync::{spec_sync, PkgsSync};
use crate::table::shows_queue_item;
use crate::text::{blanks, left_aligned, texts};
use glob::{Pattern, PatternError};
use vstd::prelude::*;

verus! {

/// A run of the command that `args` describe, up to some point: it waited in `states[i]` for
/// `actions[i]`, which came to `events[i]`. The last action may still be under way.
pub open spec fn is_run<D>(
    args: Args,
    states: Seq<State>,
    actions: Seq<Action<D>>,
    events: Seq<Event<D>>,
) -> bool {
    &&& states.len() == events.len() + 1
    &&& actions.len() == events.len() + 1
    &&& starts(args, states[0], actions[0])
    &&& forall|i: int| 0 <= i < events.len() ==> expected(states[i], #[trigger] events[i])
    &&& forall|i: int|
        0 <= i < events.len() ==> follows(
            states[i],
            #[trigger] events[i],
            states[i + 1],
            actions[i + 1],
        )
}

/// `action` is what a command does while it waits in `state`.
pub open spec fn waits_for<D>(state: State, action: Action<D>) -> bool {
    match state {
        State::Coloring { .. } => action is ForceColors,
        State::LoadingConfig { .. } => action is LoadConfig,
        State::Connecting { .. } => action is Connect,
        State::LoadingProfiles { .. } => action is LoadProfiles,
        State::Authorizing { .. } => action is FindAuthCookie,
        State::Scheduling { sync } => action == Action::<D>::Schedule(sync.distro),
        State::Listing { .. } => action is ListWorkers || action is ListPkgs || action is ListQueue,
        State::Finishing => {
            ||| action is SyncSuite
            ||| action is PushQueue
            ||| action is DropQueueItem
            ||| action is PrintJson
            ||| action is PrintWorkers
            ||| action is PrintPkgs
            ||| action is PrintQueue
            ||| action is GenCompletions
        },
        State::Finished => action is Finish,
        State::Failed => action is Fail,
    }
}

/// At every point of a run, the state says what is being done. In particular the packages that
/// are collected are those of the distribution that is being synced.
pub proof fn lemma_state_fits_action<D>(
    args: Args,
    states: Seq<State>,
    actions: Seq<Action<D>>,
    events: Seq<Event<D>>,
    i: int,
)
    requires
        is_run(args, states, actions, events),
        0 <= i < actions.len(),
    ensures
        waits_for(states[i], actions[i]),
{
    if i > 0 {
        let event = events[i - 1];
        assert(follows(states[i - 1], event, states[i], actions[i]));
    }
}

/// `action` shows who works for the daemon or changes what it holds, or prepares such a change.
pub open spec fn needs_cookie<D>(action: Action<D>) -> bool {
    ||| action is ListWorkers
    ||| action is Schedule
    ||| action is SyncSuite
    ||| action is PushQueue
    ||| action is DropQueueItem
}

/// Whatever needs the auth cookie is only done after the cookie was found.
pub proof fn lemma_cookie_comes_first<D>(
    args: Args,
    states: Seq<State>,
    actions: Seq<Action<D>>,
    events: Seq<Event<D>>,
    i: int,
)
    requires
        is_run(args, states, actions, events),
        0 <= i < actions.len(),
        needs_cookie(actions[i]),
    ensures
        exists|j: int| 0 <= j < i && (#[trigger] actions[j]) is FindAuthCookie && events[j] is Done,
{
    let event = events[i - 1];
    assert(expected(states[i - 1], event));
    assert(follows(states[i - 1], event, states[i], actions[i]));
    lemma_state_fits_action(args, states, actions, events, i - 1);
    if states[i - 1] is Scheduling {
        assert(i >= 2);
        let earlier = events[i - 2];
        assert(expected(states[i - 2], earlier));
        assert(follows(states[i - 2], earlier, states[i - 1], actions[i - 1]));
        lemma_state_fits_action(args, states, actions, events, i - 2);
        assert(actions[i - 2] is FindAuthCookie && events[i - 2] is Done);
    } else {
        assert(actions[i - 1] is FindAuthCookie && events[i - 1] is Done);
    }
}

/// Every request to the daemon, and every look-up of the auth cookie, comes after the client was
/// set up.
pub proof fn lemma_client_comes_first<D>(
    args: Args,
    states: Seq<State>,
    actions: Seq<Action<D>>,
    events: Seq<Event<D>>,
    i: int,
)
    requires
        is_run(args, states, actions, events),
        0 <= i < actions.len(),
        is_request(actions[i]) || actions[i] is FindAuthCookie,
    ensures
        exists|j: int| 0 <= j < i && (#[trigger] actions[j]) is Connect && events[j] is Done,
{
    let event = events[i - 1];
    assert(expected(states[i - 1], event));
    assert(follows(states[i - 1], event, states[i], actions[i]));
    lemma_connected(args, states, actions, events, i - 1);
    lemma_state_fits_action(args, states, actions, events, i - 1);
    assert(states[i - 1] is Connecting ==> actions[i - 1] is Connect && events[i - 1] is Done);
}

/// A client was set up before the `i`-th action.
spec fn connected<D>(actions: Seq<Action<D>>, events: Seq<Event<D>>, i: int) -> bool {
    exists|j: int| 0 <= j < i && (#[trigger] actions[j]) is Connect && events[j] is Done
}

proof fn lemma_connected<D>(
    args: Args,
    states: Seq<State>,
    actions: Seq<Action<D>>,
    events: Seq<Event<D>>,
    i: int,
)
    requires
        is_run(args, states, actions, events),
        0 <= i < states.len(),
    ensures
        rank(states[i]) >= 5 || states[i] is Failed || connected(actions, events, i),
    decreases i,
{
    if i > 0 {
        lemma_connected(args, states, actions, events, i - 1);
        lemma_state_fits_action(args, states, actions, events, i - 1);
        let event = events[i - 1];
        assert(expected(states[i - 1], event));
        assert(follows(states[i - 1], event, states[i], actions[i]));
        if states[i - 1] is Connecting {
            assert(actions[i - 1] is Connect && events[i - 1] is Done);
        }
    }
}

/// `subcommand` only reads what anybody may read, or does not talk to the daemon at all.
pub open spec fn is_public(subcommand: SubCommand) -> bool {
    ||| subcommand matches SubCommand::Pkgs(Pkgs::Ls(_))
    ||| subcommand matches SubCommand::Queue(Queue::Ls(_))
    ||| subcommand is Completions
}

/// Listing packages, listing the queue and printing completions never ask for the auth cookie.
pub proof fn lemma_public_commands_take_no_cookie<D>(
    args: Args,
    states: Seq<State>,
    actions: Seq<Action<D>>,
    events: Seq<Event<D>>,
    i: int,
)
    requires
        is_run(args, states, actions, events),
        is_public(args.subcommand),
        0 <= i < actions.len(),
    ensures
        !(actions[i] is FindAuthCookie),
{
    lemma_public_state(args, states, actions, events, i);
    lemma_state_fits_action(args, states, actions, events, i);
}

/// A state that a public command can be in.
spec fn public_state(state: State) -> bool {
    match state {
        State::Coloring { config: _, endpoint: _, subcommand } => is_public(subcommand),
        State::LoadingConfig { endpoint: _, subcommand } => is_public(subcommand),
        State::Connecting { subcommand } => is_public(subcommand),
        State::Listing { .. } | State::Finishing | State::Finished | State::Failed => true,
        _ => false,
    }
}

proof fn lemma_public_state<D>(
    args: Args,
    states: Seq<State>,
    actions: Seq<Action<D>>,
    events: Seq<Event<D>>,
    i: int,
)
    requires
        is_run(args, states, actions, events),
        is_public(args.subcommand),
        0 <= i < states.len(),
    ensures
        public_state(states[i]),
    decreases i,
{
    if i > 0 {
        lemma_public_state(args, states, actions, events, i - 1);
        let event = events[i - 1];
        assert(expected(states[i - 1], event));
        assert(follows(states[i - 1], event, states[i], actions[i]));
    }
}

/// How many more actions can follow on `state`.
spec fn rank(state: State) -> int {
    match state {
        State::Coloring { .. } => 7,
        State::LoadingConfig { .. } => 6,
        State::Connecting { .. } => 5,
        State::LoadingProfiles { .. } => 4,
        State::Authorizing { .. } => 3,
        State::Scheduling { .. } | State::Listing { .. } => 2,
        State::Finishing => 1,
        State::Finished | State::Failed => 0,
    }
}

/// Every command comes to its end: no run is longer than eight actions, the last of which is to
/// exit.
pub proof fn lemma_runs_end<D>(
    args: Args,
    states: Seq<State>,
    actions: Seq<Action<D>>,
    events: Seq<Event<D>>,
)
    requires
        is_run(args, states, actions, events),
    ensures
        actions.len() <= 8,
        actions.len() == 8 ==> actions.last() is Finish || actions.last() is Fail,
{
    lemma_rank(args, states, actions, events, states.len() - 1);
    lemma_state_fits_action(args, states, actions, events, states.len() - 1);
}

proof fn lemma_rank<D>(
    args: Args,
    states: Seq<State>,
    actions: Seq<Action<D>>,
    events: Seq<Event<D>>,
    i: int,
)
    requires
        is_run(args, states, actions, events),
        0 <= i < states.len(),
    ensures
        i + rank(states[i]) <= 7,
    decreases i,
{
    if i > 0 {
        lemma_rank(args, states, actions, events, i - 1);
        let event = events[i - 1];
        assert(expected(states[i - 1], event));
        assert(follows(states[i - 1], event, states[i], actions[i]));
    }
}

/// The first failure ends the command, and is what the command reports. After it nothing else is
/// tried.
pub proof fn lemma_failure_is_final<D>(
    args: Args,
    states: Seq<State>,
    actions: Seq<Action<D>>,
    events: Seq<Event<D>>,
    i: int,
    failure: Failure,
)
    requires
        is_run(args, states, actions, events),
        0 <= i < events.len(),
        events[i] == Event::<D>::Failed(failure),
    ensures
        i == events.len() - 1,
        actions.last() == Action::<D>::Fail(failure_in(states[i], failure)),
        states.last() is Failed,
{
    let event = events[i];
    assert(follows(states[i], event, states[i + 1], actions[i + 1]));
    if i + 1 < events.len() {
        let later = events[i + 1];
        assert(expected(states[i + 1], later));
    }
}

/// A command that exits with success saw no failure.
pub proof fn lemma_success_has_no_failure<D>(
    args: Args,
    states: Seq<State>,
    actions: Seq<Action<D>>,
    events: Seq<Event<D>>,
    i: int,
)
    requires
        is_run(args, states, actions, events),
        actions.last() is Finish,
        0 <= i < events.len(),
    ensures
        !(events[i] is Failed),
{
    if let Event::Failed(failure) = events[i] {
        lemma_failure_is_final(args, states, actions, events, i, failure);
    }
}

/// `action` asks the daemon for something.
pub open spec fn is_request<D>(action: Action<D>) -> bool {
    ||| action is ListWorkers
    ||| action is ListPkgs
    ||| action is ListQueue
    ||| action is SyncSuite
    ||| action is PushQueue
    ||| action is DropQueueItem
}

/// A command asks the daemon for one thing at most.
pub proof fn lemma_at_most_one_request<D>(
    args: Args,
    states: Seq<State>,
    actions: Seq<Action<D>>,
    events: Seq<Event<D>>,
    i: int,
    j: int,
)
    requires
        is_run(args, states, actions, events),
        0 <= i < actions.len(),
        0 <= j < actions.len(),
        is_request(actions[i]),
        is_request(actions[j]),
    ensures
        i == j,
{
    if i < j {
        lemma_no_second_request(args, states, actions, events, i, j);
    } else if j < i {
        lemma_no_second_request(args, states, actions, events, j, i);
    }
}

proof fn lemma_no_second_request<D>(
    args: Args,
    states: Seq<State>,
    actions: Seq<Action<D>>,
    events: Seq<Event<D>>,
    i: int,
    j: int,
)
    requires
        is_run(args, states, actions, events),
        0 <= i < j < actions.len(),
        is_request(actions[i]),
    ensures
        !is_request(actions[j]),
        states[j] is Finishing || states[j] is Finished || states[j] is Failed,
    decreases j,
{
    let event = events[j - 1];
    assert(expected(states[j - 1], event));
    assert(follows(states[j - 1], event, states[j], actions[j]));
    if i < j - 1 {
        lemma_no_second_request(args, states, actions, events, i, j - 1);
    } else {
        lemma_state_fits_action(args, states, actions, events, i);
    }
}

/// A command sets up one client at most.
pub proof fn lemma_connects_at_most_once<D>(
    args: Args,
    states: Seq<State>,
    actions: Seq<Action<D>>,
    events: Seq<Event<D>>,
    i: int,
    j: int,
)
    requires
        is_run(args, states, actions, events),
        0 <= i < actions.len(),
        0 <= j < actions.len(),
        actions[i] is Connect,
        actions[j] is Connect,
    ensures
        i == j,
{
    if i < j {
        lemma_no_second_client(args, states, actions, events, i, j);
    } else if j < i {
        lemma_no_second_client(args, states, actions, events, j, i);
    }
}

proof fn lemma_no_second_client<D>(
    args: Args,
    states: Seq<State>,
    actions: Seq<Action<D>>,
    events: Seq<Event<D>>,
    i: int,
    j: int,
)
    requires
        is_run(args, states, actions, events),
        0 <= i < j < actions.len(),
        actions[i] is Connect,
    ensures
        !(actions[j] is Connect),
        rank(states[j]) < 5,
    decreases j,
{
    let event = events[j - 1];
    assert(expected(states[j - 1], event));
    assert(follows(states[j - 1], event, states[j], actions[j]));
    if i < j - 1 {
        lemma_no_second_client(args, states, actions, events, i, j - 1);
    } else {
        lemma_state_fits_action(args, states, actions, events, i);
    }
}

/// Whether `subcommand` syncs packages, and if so, whether it prints them instead of sending them.
pub open spec fn sync_prints(subcommand: SubCommand) -> Option<bool> {
    match subcommand {
        SubCommand::Pkgs(Pkgs::Sync(sync)) => Some(sync.print_json),
        SubCommand::Pkgs(Pkgs::SyncProfile(request)) => Some(request.print_json),
        _ => None,
    }
}

/// A sync that is to print the packages never sends them, and one that is to send them never
/// prints them.
pub proof fn lemma_sync_prints_or_sends<D>(
    args: Args,
    states: Seq<State>,
    actions: Seq<Action<D>>,
    events: Seq<Event<D>>,
    i: int,
)
    requires
        is_run(args, states, actions, events),
        sync_prints(args.subcommand) is Some,
        0 <= i < actions.len(),
    ensures
        sync_prints(args.subcommand) == Some(true) ==> !(actions[i] is SyncSuite),
        sync_prints(args.subcommand) == Some(false) ==> !(actions[i] is PrintJson),
{
    if i > 0 {
        lemma_sync_state(args, states, actions, events, i - 1);
        let event = events[i - 1];
        assert(expected(states[i - 1], event));
        assert(follows(states[i - 1], event, states[i], actions[i]));
    }
}

/// A state that a sync can be in which prints the packages or sends them, as `print_json` says.
spec fn sync_state(state: State, print_json: bool) -> bool {
    match state {
        State::Coloring { config: _, endpoint: _, subcommand } => sync_prints(subcommand) == Some(
            print_json,
        ),
        State::LoadingConfig { endpoint: _, subcommand } => sync_prints(subcommand) == Some(
            print_json,
        ),
        State::Connecting { subcommand } => sync_prints(subcommand) == Some(print_json),
        State::LoadingProfiles { profile: _, print_json: chosen } => chosen == print_json,
        State::Authorizing { request: Authorized::Sync(sync) } => sync.print_json == print_json,
        State::Authorizing { request: Authorized::SyncProfile(_, chosen) } => chosen == print_json,
        State::Scheduling { sync } => sync.print_json == print_json,
        State::Finishing | State::Finished | State::Failed => true,
        _ => false,
    }
}

proof fn lemma_sync_state<D>(
    args: Args,
    states: Seq<State>,
    actions: Seq<Action<D>>,
    events: Seq<Event<D>>,
    i: int,
)
    requires
        is_run(args, states, actions, events),
        sync_prints(args.subcommand) is Some,
        0 <= i < states.len(),
    ensures
        sync_state(states[i], sync_prints(args.subcommand)->0),
    decreases i,
{
    if i > 0 {
        lemma_sync_state(args, states, actions, events, i - 1);
        let event = events[i - 1];
        assert(expected(states[i - 1], event));
        assert(follows(states[i - 1], event, states[i], actions[i]));
    }
}

/// The list that `action` prints or sends.
pub open spec fn payload<D>(action: Action<D>) -> Option<D> {
    match action {
        Action::SyncSuite(import) => Some(import.pkgs),
        Action::PrintJson(list) => Some(list),
        Action::PrintWorkers(list) => Some(list),
        Action::PrintPkgs(list) => Some(list),
        Action::PrintQueue(list) => Some(list),
        _ => None,
    }
}

/// What a command prints or sends is the list that it received right before.
pub proof fn lemma_lists_pass_unchanged<D>(
    args: Args,
    states: Seq<State>,
    actions: Seq<Action<D>>,
    events: Seq<Event<D>>,
    i: int,
    list: D,
)
    requires
        is_run(args, states, actions, events),
        0 <= i < actions.len(),
        payload(actions[i]) == Some(list),
    ensures
        i >= 1,
        events[i - 1] == Event::Received(list),
{
    let event = events[i - 1];
    assert(expected(states[i - 1], event));
    assert(follows(states[i - 1], event, states[i], actions[i]));
}

/// `profile` is the one called `name` in a sync config that was loaded.
pub open spec fn found_profile<D>(
    events: Seq<Event<D>>,
    name: Seq<char>,
    profile: SyncProfile,
) -> bool {
    exists|i: int|
        {
            &&& 0 <= i < events.len()
            &&& #[trigger] events[i] is ProfilesLoaded
            &&& events[i]->ProfilesLoaded_0@.contains_key(name)
            &&& events[i]->ProfilesLoaded_0@[name] == profile
        }
}

/// `action` is what `subcommand` is for, after `events` have happened.
pub open spec fn fulfils<D>(
    subcommand: SubCommand,
    events: Seq<Event<D>>,
    action: Action<D>,
) -> bool {
    match subcommand {
        SubCommand::Status => action is PrintWorkers,
        SubCommand::Pkgs(Pkgs::Sync(sync)) => if sync.print_json {
            action is PrintJson
        } else {
            &&& action is SyncSuite
            &&& action->SyncSuite_0.distro == sync.distro
            &&& action->SyncSuite_0.suite == sync.suite
            &&& action->SyncSuite_0.architecture == sync.architecture
        },
        SubCommand::Pkgs(Pkgs::SyncProfile(request)) => exists|profile: SyncProfile|
            {
                &&& #[trigger] found_profile(events, request.profile@, profile)
                &&& if request.print_json {
                    action is PrintJson
                } else {
                    &&& action is SyncSuite
                    &&& action->SyncSuite_0.distro == profile.distro
                    &&& action->SyncSuite_0.suite == profile.suite
                    &&& action->SyncSuite_0.architecture == profile.architecture
                }
            },
        SubCommand::Pkgs(Pkgs::Ls(ls)) => if ls.json {
            action is PrintJson
        } else {
            action is PrintPkgs
        },
        SubCommand::Queue(Queue::Ls(ls)) => if ls.json {
            action is PrintJson
        } else {
            action is PrintQueue
        },
        SubCommand::Queue(Queue::Push(push)) => {
            &&& action is PushQueue
            &&& action->PushQueue_0.name == push.name
            &&& action->PushQueue_0.version == push.version
            &&& action->PushQueue_0.distro == push.distro
            &&& action->PushQueue_0.suite == push.suite
            &&& action->PushQueue_0.architecture == push.architecture
        },
        SubCommand::Queue(Queue::Delete(delete)) => {
            &&& action is DropQueueItem
            &&& action->DropQueueItem_0.name == delete.name
            &&& action->DropQueueItem_0.version == delete.version
            &&& action->DropQueueItem_0.distro == delete.distro
            &&& action->DropQueueItem_0.suite == delete.suite
            &&& action->DropQueueItem_0.architecture == delete.architecture
        },
        SubCommand::Completions(completions) => action == Action::<D>::GenCompletions(completions),
    }
}

/// A command that exits with success has done what it is for, right before, and without failure.
pub proof fn lemma_success_means_done<D>(
    args: Args,
    states: Seq<State>,
    actions: Seq<Action<D>>,
    events: Seq<Event<D>>,
)
    requires
        is_run(args, states, actions, events),
        actions.last() is Finish,
    ensures
        actions.len() >= 2,
        fulfils(args.subcommand, events, actions[actions.len() - 2]),
        events.last() is Done,
{
    let last = actions.len() - 1;
    lemma_state_fits_action(args, states, actions, events, last);
    lemma_on_course(args, states, actions, events, last - 1);
    let event = events[last - 1];
    assert(expected(states[last - 1], event));
    assert(follows(states[last - 1], event, states[last], actions[last]));
}

/// `subcommand` can be in `state`, where it does `action`, in a run with `events`.
spec fn on_course<D>(
    subcommand: SubCommand,
    events: Seq<Event<D>>,
    state: State,
    action: Action<D>,
) -> bool {
    match state {
        State::Coloring { config: _, endpoint: _, subcommand: pending } => pending == subcommand,
        State::LoadingConfig { endpoint: _, subcommand: pending } => pending == subcommand,
        State::Connecting { subcommand: pending } => pending == subcommand,
        State::LoadingProfiles { profile, print_json } => {
            &&& subcommand matches SubCommand::Pkgs(Pkgs::SyncProfile(request))
            &&& request.profile == profile
            &&& request.print_json == print_json
        },
        State::Authorizing { request: Authorized::SyncProfile(profile, print_json) } => {
            &&& subcommand matches SubCommand::Pkgs(Pkgs::SyncProfile(request))
            &&& found_profile(events, request.profile@, profile)
            &&& request.print_json == print_json
        },
        State::Authorizing { request: Authorized::Sync(sync) } => subcommand == SubCommand::Pkgs(
            Pkgs::Sync(sync),
        ),
        State::Authorizing { request: Authorized::ListWorkers } => subcommand is Status,
        State::Authorizing { request: Authorized::PushQueue(push) } => fulfils(
            subcommand,
            events,
            Action::<D>::PushQueue(push),
        ),
        State::Authorizing { request: Authorized::DropQueueItem(item) } => fulfils(
            subcommand,
            events,
            Action::<D>::DropQueueItem(item),
        ),
        State::Scheduling { sync } => forall|pkgs: D|
            fulfils(subcommand, events, #[trigger] sync_step(spec_sync(sync, pkgs))),
        State::Listing { form } => forall|list: D|
            fulfils(subcommand, events, #[trigger] print_step(form, list)),
        State::Finishing => fulfils(subcommand, events, action),
        State::Finished | State::Failed => true,
    }
}

proof fn lemma_on_course<D>(
    args: Args,
    states: Seq<State>,
    actions: Seq<Action<D>>,
    events: Seq<Event<D>>,
    i: int,
)
    requires
        is_run(args, states, actions, events),
        0 <= i < states.len(),
    ensures
        on_course(args.subcommand, events, states[i], actions[i]),
    decreases i,
{
    if i > 0 {
        lemma_on_course(args, states, actions, events, i - 1);
        let event = events[i - 1];
        assert(expected(states[i - 1], event));
        assert(follows(states[i - 1], event, states[i], actions[i]));
    }
}

/// Syncing a profile goes on like a sync that was given on the command line, with the patterns of
/// the profile compiled.
pub proof fn lemma_profile_is_a_sync<D>(
    profile: SyncProfile,
    print_json: bool,
    sync: PkgsSync,
    action: Action<D>,
)
    requires
        authorizes(
            Authorized::SyncProfile(profile, print_json),
            State::Scheduling { sync },
            action,
        ),
    ensures
        authorizes(Authorized::Sync(sync), State::Scheduling { sync }, action),
        sync.print_json == print_json,
{
}

/// No text holds a backslash, so compiling them does not depend on the machine.
pub open spec fn backslash_free(patterns: Seq<String>) -> bool {
    forall|i: int| 0 <= i < patterns.len() ==> !(#[trigger] patterns[i])@.contains('\\')
}

/// Compiling two lists joined gives the two results joined, or else the first error of the two.
pub proof fn lemma_joined_lists_compile_jointly(
    a: Seq<String>,
    b: Seq<String>,
    first: Result<Vec<Pattern>, Error>,
    second: Result<Vec<Pattern>, Error>,
    both: Result<Vec<Pattern>, Error>,
)
    requires
        backslash_free(a + b),
        compiled_from(a, first),
        compiled_from(b, second),
        compiled_from(a + b, both),
    ensures
        both is Ok <==> first is Ok && second is Ok,
        both is Ok ==> both->Ok_0@ == first->Ok_0@ + second->Ok_0@,
        first is Err ==> both is Err && both->Err_0 == first->Err_0,
        first is Ok && second is Err ==> both is Err && both->Err_0 == second->Err_0,
{
    let joined = a + b;
    match first {
        Err(Error::Pattern(refusal)) => {
            let place = choose|i: int| refused_at(a, i, refusal);
            assert(refused_at(a, place, refusal));
            assert forall|before: int| 0 <= before < place implies accepted(
                #[trigger] joined[before]@,
            ) by {
                assert(joined[before] == a[before]);
            }
            assert(joined[place] == a[place]);
            assert(refused_at(joined, place, refusal));
            lemma_refusal_decides(joined, both, place, refusal);
        },
        Ok(patterns) => {
            match second {
                Err(Error::Pattern(refusal)) => {
                    let place = choose|i: int| refused_at(b, i, refusal);
                    assert(refused_at(b, place, refusal));
                    assert forall|before: int|
                        0 <= before < a.len() + place implies accepted(
                        #[trigger] joined[before]@,
                    ) by {
                        if before < a.len() {
                            assert(joined[before] == a[before]);
                            assert(glob_outcome(a[before]@, Ok(patterns@[before])));
                        } else {
                            assert(joined[before] == b[before - a.len()]);
                        }
                    }
                    assert(joined[a.len() + place] == b[place]);
                    assert(refused_at(joined, a.len() + place, refusal));
                    lemma_refusal_decides(joined, both, a.len() + place, refusal);
                },
                Ok(more) => {
                    assert forall|i: int| 0 <= i < joined.len() implies glob_outcome(
                        joined[i]@,
                        Ok(#[trigger] (patterns@ + more@)[i]),
                    ) by {
                        if i < a.len() {
                            assert(glob_outcome(a[i]@, Ok(patterns@[i])));
                        } else {
                            assert(glob_outcome(b[i - a.len()]@, Ok(more@[i - a.len()])));
                        }
                    }
                    lemma_success_decides(joined, both, patterns@ + more@);
                },
                _ => {},
            }
        },
        _ => {},
    }
}

/// Texts of which one is the first to be refused do not compile to anything else.
proof fn lemma_refusal_decides(
    patterns: Seq<String>,
    compiled: Result<Vec<Pattern>, Error>,
    place: int,
    refusal: PatternError,
)
    requires
        backslash_free(patterns),
        compiled_from(patterns, compiled),
        refused_at(patterns, place, refusal),
    ensures
        compiled == Err::<Vec<Pattern>, Error>(Error::Pattern(refusal)),
{
    assert(!patterns[place]@.contains('\\'));
    match compiled {
        Ok(list) => {
            assert(glob_outcome(patterns[place]@, Ok(list@[place])));
        },
        Err(Error::Pattern(other)) => {
            let other_place = choose|i: int| refused_at(patterns, i, other);
            assert(refused_at(patterns, other_place, other));
            assert(!patterns[other_place]@.contains('\\'));
            if other_place < place {
                assert(accepted(patterns[other_place]@));
            } else if place < other_place {
                assert(accepted(patterns[place]@));
            }
        },
        _ => {},
    }
}

/// Texts that compile one by one do not compile to anything else.
proof fn lemma_success_decides(
    patterns: Seq<String>,
    compiled: Result<Vec<Pattern>, Error>,
    list: Seq<Pattern>,
)
    requires
        backslash_free(patterns),
        compiled_from(patterns, compiled),
        list.len() == patterns.len(),
        forall|i: int|
            0 <= i < patterns.len() ==> glob_outcome(patterns[i]@, Ok(#[trigger] list[i])),
    ensures
        compiled is Ok,
        compiled->Ok_0@ == list,
{
    match compiled {
        Ok(found) => {
            assert forall|i: int| 0 <= i < patterns.len() implies found@[i] == list[i] by {
                assert(!patterns[i]@.contains('\\'));
                assert(glob_outcome(patterns[i]@, Ok(found@[i])));
                assert(glob_outcome(patterns[i]@, Ok(list[i])));
            }
            assert(found@ =~= list);
        },
        Err(Error::Pattern(refusal)) => {
            let place = choose|i: int| refused_at(patterns, i, refusal);
            assert(refused_at(patterns, place, refusal));
            assert(!patterns[place]@.contains('\\'));
            assert(glob_outcome(patterns[place]@, Ok(list[place])));
        },
        _ => {},
    }
}

/// Compiling the same texts again gives the same patterns, or the same error.
pub proof fn lemma_compiling_again_changes_nothing(
    patterns: Seq<String>,
    again: Seq<String>,
    first: Result<Vec<Pattern>, Error>,
    second: Result<Vec<Pattern>, Error>,
)
    requires
        backslash_free(patterns),
        texts(again) == texts(patterns),
        compiled_from(patterns, first),
        compiled_from(again, second),
    ensures
        first is Ok <==> second is Ok,
        first is Ok ==> second->Ok_0@ == first->Ok_0@,
        first is Err ==> second->Err_0 == first->Err_0,
{
    assert(again.len() == texts(again).len());
    assert forall|i: int| 0 <= i < again.len() implies (#[trigger] again[i])@ == patterns[i]@ by {
        assert(texts(again)[i] == texts(patterns)[i]);
    }
    assert(backslash_free(again));
    match first {
        Ok(list) => {
            assert forall|i: int| 0 <= i < again.len() implies glob_outcome(
                again[i]@,
                Ok(#[trigger] list@[i]),
            ) by {
                assert(again[i]@ == patterns[i]@);
            }
            lemma_success_decides(again, second, list@);
        },
        Err(Error::Pattern(refusal)) => {
            let place = choose|i: int| refused_at(patterns, i, refusal);
            assert(refused_at(patterns, place, refusal));
            assert(again[place]@ == patterns[place]@);
            assert forall|before: int| 0 <= before < place implies accepted(
                #[trigger] again[before]@,
            ) by {
                assert(again[before]@ == patterns[before]@);
            }
            assert(refused_at(again, place, refusal));
            lemma_refusal_decides(again, second, place, refusal);
        },
        _ => {},
    }
}

/// Compiled patterns keep the texts that they were compiled from.
pub proof fn lemma_patterns_keep_their_texts(patterns: Seq<String>, compiled: Vec<Pattern>)
    requires
        compiled_from(patterns, Ok(compiled)),
    ensures
        sources(compiled@) == texts(patterns),
{
    assert forall|i: int| 0 <= i < patterns.len() implies #[trigger] sources(compiled@)[i] == texts(
        patterns,
    )[i] by {
        assert(glob_outcome(patterns[i]@, Ok(compiled@[i])));
    }
    assert(sources(compiled@) =~= texts(patterns));
}

/// Reading back the texts of compiled patterns and compiling them again gives the same patterns.
pub proof fn lemma_texts_compile_back(
    patterns: Seq<String>,
    compiled: Vec<Pattern>,
    read: Seq<String>,
    again: Result<Vec<Pattern>, Error>,
)
    requires
        backslash_free(patterns),
        compiled_from(patterns, Ok(compiled)),
        texts(read) == sources(compiled@),
        compiled_from(read, again),
    ensures
        texts(read) == texts(patterns),
        again is Ok,
        again->Ok_0@ == compiled@,
{
    lemma_patterns_keep_their_texts(patterns, compiled);
    lemma_compiling_again_changes_nothing(patterns, read, Ok(compiled), again);
}

/// An error is reported in at least one line, and the first line is the only one that calls
/// itself the error.
pub proof fn lemma_report_names_the_error(error: Error)
    ensures
        report_lines(error.spec_chain()).len() == error.spec_chain().len() >= 1,
        report_lines(error.spec_chain())[0] == "Error: "@ + error.spec_chain()[0],
        forall|i: int|
            0 < i < error.spec_chain().len() ==> (#[trigger] report_lines(error.spec_chain())[i])
                == "Because: "@ + error.spec_chain()[i],
{
}

/// An item that was not started shows no running time, whatever running time is given for it.
pub proof fn lemma_only_started_items_show_a_running_time(
    item: QueueItem,
    running: Seq<char>,
    line: Seq<char>,
)
    requires
        item.started_at is None,
    ensures
        shows_queue_item(item, running, line) == shows_queue_item(item, Seq::empty(), line),
{
}

/// A column is as wide as it should be, or as its text if that is wider, and shows its text at
/// its left edge with nothing but blanks behind it.
pub proof fn lemma_columns_line_up(text: Seq<char>, width: nat)
    ensures
        text.len() <= width ==> left_aligned(text, width).len() == width,
        text.len() >= width ==> left_aligned(text, width) == text,
        left_aligned(text, width).take(text.len() as int) == text,
        forall|i: int|
            text.len() <= i < left_aligned(text, width).len() ==> (#[trigger] left_aligned(
                text,
                width,
            )[i]) == ' ',
{
    if text.len() < width {
        assert(left_aligned(text, width) == text + blanks((width - text.len()) as nat));
    }
    assert(left_aligned(text, width).take(text.len() as int) =~= text);
    assert(text.len() == width ==> left_aligned(text, width) =~= text);
}

/// Painting a text that holds no escape sequence of its own only puts escape sequences around it.
pub proof fn lemma_painting_keeps_text(text: Seq<char>, style: Seq<char>, output: Seq<char>)
    requires
        !text.contains('\u{1b}'),
        painted(text, style, output),
    ensures
        output == text || output == style + text + reset() || output == text + reset(),
{
    lemma_nothing_to_restyle(text, style);
}

proof fn lemma_nothing_to_restyle(text: Seq<char>, style: Seq<char>)
    requires
        !text.contains('\u{1b}'),
    ensures
        restyled(text, style) == text,
    decreases text.len(),
{
    if text.len() >= reset().len() {
        assert(text.contains(text[0]));
        assert(text.take(4)[0] == text[0]);
        assert(reset()[0] == '\u{1b}');
        assert forall|c: char| text.skip(1).contains(c) implies text.contains(c) by {
            let i = choose|i: int| 0 <= i < text.skip(1).len() && text.skip(1)[i] == c;
            assert(text[i + 1] == c);
        }
        lemma_nothing_to_restyle(text.skip(1), style);
        assert(text.take(1) + text.skip(1) =~= text);
    }
}

} // verus!
