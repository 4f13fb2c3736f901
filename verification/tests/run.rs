use glob::Pattern;
use rebuildctl::api::{Distro, DropQueueItem, ListPkgs, ListQueue, PushQueue, Status, SuiteImport};
use rebuildctl::command::{
    Args, Completions, Pkgs, PkgsLs, PkgsSyncProfile, Queue, QueueDelete, QueueLs, QueuePush,
    SubCommand,
};
use rebuildctl::error::{Error, Failure};
use rebuildctl::profile::{SyncConfigFile, SyncProfile};
use rebuildctl::run::{authorize, dispatch, start, step, Action, Authorized, Event, Form, State};
use rebuildctl::sync::PkgsSync;

/// Lists are plain texts here.
type List = &'static str;

fn args(subcommand: SubCommand) -> Args {
    Args { verbose: false, color: false, config: None, endpoint: None, subcommand }
}

fn request(print_json: bool) -> PkgsSync {
    PkgsSync {
        distro: Distro::Archlinux,
        suite: "core".to_string(),
        architecture: "x86_64".to_string(),
        source: "https://mirror.example.com".to_string(),
        print_json,
        maintainers: vec![],
        pkgs: vec![Pattern::new("z*").unwrap()],
        excludes: vec![],
    }
}

fn profile() -> SyncProfile {
    SyncProfile {
        distro: Distro::Debian,
        suite: "sid".to_string(),
        architecture: "amd64".to_string(),
        source: "http://deb.debian.org".to_string(),
        maintainers: vec![],
        pkgs: vec!["lib*".to_string()],
        excludes: vec![],
    }
}

fn profiles() -> SyncConfigFile {
    SyncConfigFile::new().insert("main".to_string(), profile())
}

fn failure() -> Failure {
    Failure { message: "broken".to_string(), causes: vec![] }
}

/// Runs a command in a world where everything works, and tells what it did.
fn course(args: Args) -> Vec<String> {
    let (mut state, mut action) = start::<List>(args);
    let mut seen = Vec::new();
    loop {
        seen.push(format!("{:?}", action));
        let event = match action {
            Action::LoadConfig(_) => Event::ConfigLoaded(None),
            Action::LoadProfiles(_) => Event::ProfilesLoaded(profiles()),
            Action::Schedule(_)
            | Action::ListWorkers
            | Action::ListPkgs(_)
            | Action::ListQueue(_) => Event::Received("list"),
            Action::Finish | Action::Fail(_) => return seen,
            _ => Event::Done,
        };
        let next = step(state, event);
        state = next.0;
        action = next.1;
    }
}

#[test]
fn the_status_takes_the_cookie() {
    assert_eq!(
        course(args(SubCommand::Status)),
        vec![
            "LoadConfig(None)",
            "Connect(\"http://127.0.0.1:8080\")",
            "FindAuthCookie",
            "ListWorkers",
            "PrintWorkers(\"list\")",
            "Finish",
        ],
    );
}

#[test]
fn the_client_comes_first() {
    let seen = course(args(SubCommand::Status));
    let connect = seen.iter().position(|action| action.starts_with("Connect")).unwrap();
    let cookie = seen.iter().position(|action| action == "FindAuthCookie").unwrap();
    let request = seen.iter().position(|action| action == "ListWorkers").unwrap();
    assert_eq!((connect, cookie, request), (1, 2, 3));
}

#[test]
fn lists_take_no_cookie() {
    let ls = PkgsLs {
        name: Some("zstd".to_string()),
        status: Some(Status::Bad),
        distro: None,
        suite: None,
        architecture: None,
        json: false,
    };
    let seen = course(args(SubCommand::Pkgs(Pkgs::Ls(ls))));
    assert_eq!(seen.len(), 5);
    assert!(seen[2].starts_with("ListPkgs"));
    assert_eq!(seen[3], "PrintPkgs(\"list\")");
    let seen = course(args(SubCommand::Queue(Queue::Ls(QueueLs { head: true, json: true }))));
    assert_eq!(seen[2], "ListQueue(ListQueue { limit: Some(25) })");
    assert_eq!(seen[3], "PrintJson(\"list\")");
    assert_eq!(seen[4], "Finish");
}

#[test]
fn the_longest_run_has_eight_actions() {
    let request = PkgsSyncProfile {
        profile: "main".to_string(),
        config_file: "sync.conf".to_string(),
        print_json: false,
    };
    let mut args = args(SubCommand::Pkgs(Pkgs::SyncProfile(request)));
    args.color = true;
    args.config = Some("tool.conf".to_string());
    args.endpoint = Some("http://daemon".to_string());
    let seen = course(args);
    assert_eq!(
        seen[..6],
        [
            "ForceColors",
            "LoadConfig(Some(\"tool.conf\"))",
            "Connect(\"http://daemon\")",
            "LoadProfiles(\"sync.conf\")",
            "FindAuthCookie",
            "Schedule(Debian)",
        ],
    );
    assert!(seen[6].starts_with("SyncSuite(SuiteImport { distro: Debian, suite: \"sid\""));
    assert_eq!(seen[7], "Finish");
    assert_eq!(seen.len(), 8);
}

#[test]
fn a_sync_that_prints_does_not_send() {
    let seen = course(args(SubCommand::Pkgs(Pkgs::Sync(request(true)))));
    assert_eq!(
        seen[2..],
        ["FindAuthCookie", "Schedule(Archlinux)", "PrintJson(\"list\")", "Finish"],
    );
    let seen = course(args(SubCommand::Pkgs(Pkgs::Sync(request(false)))));
    assert!(seen[4].starts_with("SyncSuite"));
    assert!(seen.iter().all(|action| !action.starts_with("PrintJson")));
}

#[test]
fn completions_need_no_daemon() {
    let completions = Completions { shell: "zsh".to_string() };
    let seen = course(args(SubCommand::Completions(completions)));
    assert_eq!(seen[2..], ["GenCompletions(Completions { shell: \"zsh\" })", "Finish"]);
}

#[test]
fn the_queue_is_changed_with_the_cookie() {
    let push = QueuePush {
        name: "zstd".to_string(),
        version: Some("1.4".to_string()),
        distro: "archlinux".to_string(),
        suite: "core".to_string(),
        architecture: None,
    };
    match dispatch::<List>(SubCommand::Queue(Queue::Push(push))) {
        (State::Authorizing { request: Authorized::PushQueue(push) }, Action::FindAuthCookie) => {
            assert_eq!(
                push,
                PushQueue {
                    name: "zstd".to_string(),
                    version: Some("1.4".to_string()),
                    distro: "archlinux".to_string(),
                    suite: "core".to_string(),
                    architecture: None,
                },
            );
            match authorize::<List>(Authorized::PushQueue(push)) {
                (State::Finishing, Action::PushQueue(sent)) => assert_eq!(sent.name, "zstd"),
                other => panic!("{:?}", other),
            }
        }
        other => panic!("{:?}", other),
    }
    let delete = QueueDelete {
        name: "zstd".to_string(),
        version: None,
        distro: "archlinux".to_string(),
        suite: "core".to_string(),
        architecture: Some("any".to_string()),
    };
    match dispatch::<List>(SubCommand::Queue(Queue::Delete(delete))) {
        (
            State::Authorizing { request: Authorized::DropQueueItem(item) },
            Action::FindAuthCookie,
        ) => {
            assert_eq!(
                item,
                DropQueueItem {
                    name: "zstd".to_string(),
                    version: None,
                    distro: "archlinux".to_string(),
                    suite: "core".to_string(),
                    architecture: Some("any".to_string()),
                },
            );
            match authorize::<List>(Authorized::DropQueueItem(item)) {
                (State::Finishing, Action::DropQueueItem(sent)) => assert_eq!(sent.suite, "core"),
                other => panic!("{:?}", other),
            }
        }
        other => panic!("{:?}", other),
    }
}

#[test]
fn criteria_are_passed_on() {
    let ls = PkgsLs {
        name: Some("n".to_string()),
        status: Some(Status::Good),
        distro: Some("d".to_string()),
        suite: Some("s".to_string()),
        architecture: Some("a".to_string()),
        json: true,
    };
    match dispatch::<List>(SubCommand::Pkgs(Pkgs::Ls(ls))) {
        (State::Listing { form: Form::Json }, Action::ListPkgs(list)) => assert_eq!(
            list,
            ListPkgs {
                name: Some("n".to_string()),
                status: Some(Status::Good),
                distro: Some("d".to_string()),
                suite: Some("s".to_string()),
                architecture: Some("a".to_string()),
            },
        ),
        other => panic!("{:?}", other),
    }
    match dispatch::<List>(SubCommand::Queue(Queue::Ls(QueueLs { head: false, json: false }))) {
        (State::Listing { form: Form::Queue }, Action::ListQueue(list)) => {
            assert_eq!(list, ListQueue { limit: None });
        }
        other => panic!("{:?}", other),
    }
}

#[test]
fn a_received_list_is_sent_unchanged() {
    match step(State::Scheduling { sync: request(false) }, Event::Received("pkgs")) {
        (State::Finishing, Action::SyncSuite(import)) => assert_eq!(
            import,
            SuiteImport {
                distro: Distro::Archlinux,
                suite: "core".to_string(),
                architecture: "x86_64".to_string(),
                pkgs: "pkgs",
            },
        ),
        other => panic!("{:?}", other),
    }
}

#[test]
fn a_failure_ends_the_command() {
    let (state, _) = start::<List>(args(SubCommand::Status));
    match step::<List>(state, Event::Failed(failure())) {
        (State::Failed, Action::Fail(Error::Config(failure))) => {
            assert_eq!(failure.message, "broken");
        }
        other => panic!("{:?}", other),
    }
    match step::<List>(State::Finishing, Event::Failed(failure())) {
        (State::Failed, Action::Fail(Error::Outside(failure))) => {
            assert_eq!(failure.message, "broken");
        }
        other => panic!("{:?}", other),
    }
}

#[test]
fn an_unknown_profile_is_refused_before_the_cookie() {
    let state = State::LoadingProfiles { profile: "nope".to_string(), print_json: false };
    match step::<List>(state, Event::ProfilesLoaded(profiles())) {
        (State::Failed, Action::Fail(Error::ProfileNotFound(name))) => assert_eq!(name, "nope"),
        other => panic!("{:?}", other),
    }
}

#[test]
fn bad_patterns_are_refused_after_the_cookie() {
    let mut bad = profile();
    bad.excludes.push("[".to_string());
    let config = SyncConfigFile::new().insert("main".to_string(), bad);
    let state = State::LoadingProfiles { profile: "main".to_string(), print_json: false };
    let (state, action) = step::<List>(state, Event::ProfilesLoaded(config));
    assert!(matches!(action, Action::FindAuthCookie));
    match step::<List>(state, Event::Done) {
        (State::Failed, Action::Fail(Error::Pattern(error))) => assert_eq!(error.pos, 0),
        other => panic!("{:?}", other),
    }
}

#[test]
fn a_profile_goes_on_like_a_sync() {
    match authorize::<List>(Authorized::SyncProfile(profile(), true)) {
        (State::Scheduling { sync }, Action::Schedule(Distro::Debian)) => {
            assert!(sync.print_json);
            assert!(sync.pkgs[0].matches("libfoo"));
            match authorize::<List>(Authorized::Sync(sync)) {
                (State::Scheduling { sync }, Action::Schedule(Distro::Debian)) => {
                    assert_eq!(sync.suite, "sid");
                }
                other => panic!("{:?}", other),
            }
        }
        other => panic!("{:?}", other),
    }
}
