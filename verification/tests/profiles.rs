use rebuildctl::api::{Distro, SuiteImport};
use rebuildctl::error::Error;
use rebuildctl::profile::{SyncConfigFile, SyncProfile};
use rebuildctl::sync::{profile_sync, sync, SyncAction};

fn profile(suite: &str, pkgs: &[&str], excludes: &[&str]) -> SyncProfile {
    SyncProfile {
        distro: Distro::Debian,
        suite: suite.to_string(),
        architecture: "amd64".to_string(),
        source: "http://deb.debian.org/debian".to_string(),
        maintainers: vec!["someone@example.com".to_string()],
        pkgs: pkgs.iter().map(|text| text.to_string()).collect(),
        excludes: excludes.iter().map(|text| text.to_string()).collect(),
    }
}

fn config() -> SyncConfigFile {
    SyncConfigFile::new()
        .insert("main".to_string(), profile("sid", &[], &[]))
        .insert("other".to_string(), profile("buster", &[], &[]))
        .insert("main".to_string(), profile("bullseye", &[], &[]))
}

#[test]
fn a_profile_is_found_by_its_name() {
    assert_eq!(config().take_profile("other".to_string()).unwrap().suite, "buster");
}

#[test]
fn a_later_profile_replaces_one_of_the_same_name() {
    assert_eq!(config().take_profile("main".to_string()).unwrap().suite, "bullseye");
}

#[test]
fn an_unknown_profile_is_an_error() {
    match config().take_profile("Main".to_string()) {
        Err(Error::ProfileNotFound(name)) => assert_eq!(name, "Main"),
        other => panic!("{:?}", other),
    }
    assert!(SyncConfigFile::new().take_profile(String::new()).is_err());
}

#[test]
fn a_profile_becomes_a_sync() {
    let request = profile_sync(profile("sid", &["lib*"], &["libc*", "x"]), true).unwrap();
    assert_eq!(request.distro, Distro::Debian);
    assert_eq!(request.suite, "sid");
    assert_eq!(request.architecture, "amd64");
    assert_eq!(request.source, "http://deb.debian.org/debian");
    assert_eq!(request.maintainers, vec!["someone@example.com"]);
    assert!(request.print_json);
    assert_eq!(request.pkgs.len(), 1);
    assert_eq!(request.pkgs[0].as_str(), "lib*");
    assert_eq!(request.excludes.len(), 2);
    assert_eq!(request.excludes[1].as_str(), "x");
}

#[test]
fn a_bad_pattern_of_packages_comes_before_one_of_excludes() {
    match profile_sync(profile("sid", &["ab["], &["["]), false) {
        Err(Error::Pattern(error)) => assert_eq!(error.pos, 2),
        other => panic!("{:?}", other),
    }
    match profile_sync(profile("sid", &["ab"], &["["]), false) {
        Err(Error::Pattern(error)) => assert_eq!(error.pos, 0),
        other => panic!("{:?}", other),
    }
}

#[test]
fn a_sync_prints_or_sends() {
    let request = profile_sync(profile("sid", &[], &[]), true).unwrap();
    assert_eq!(sync(request, vec![1, 2]), SyncAction::PrintJson(vec![1, 2]));
    let request = profile_sync(profile("sid", &[], &[]), false).unwrap();
    assert_eq!(
        sync(request, vec![1, 2]),
        SyncAction::SyncSuite(SuiteImport {
            distro: Distro::Debian,
            suite: "sid".to_string(),
            architecture: "amd64".to_string(),
            pkgs: vec![1, 2],
        }),
    );
}
