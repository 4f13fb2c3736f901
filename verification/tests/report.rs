use glob::Pattern;
use rebuildctl::error::{error_report, Error, Failure};

fn failure() -> Failure {
    Failure {
        message: "Failed to parse".to_string(),
        causes: vec!["line 3".to_string(), "not a number".to_string()],
    }
}

#[test]
fn a_failure_is_reported_with_its_causes() {
    assert_eq!(
        Error::Outside(failure()).report(),
        vec!["Error: Failed to parse", "Because: line 3", "Because: not a number"],
    );
}

#[test]
fn a_config_failure_gets_a_context() {
    assert_eq!(
        Error::Config(failure()).report(),
        vec![
            "Error: Failed to load config file",
            "Because: Failed to parse",
            "Because: line 3",
            "Because: not a number",
        ],
    );
}

#[test]
fn a_missing_profile_is_quoted() {
    let error = Error::ProfileNotFound("my \"pro\tfile\"".to_string());
    assert_eq!(error.chain(), vec!["Profile not found: \"my \\\"pro\\tfile\\\"\""]);
    assert_eq!(error.report(), vec!["Error: Profile not found: \"my \\\"pro\\tfile\\\"\""]);
}

#[test]
fn a_bad_pattern_is_described_by_glob() {
    let error = Error::Pattern(Pattern::new("abc[").unwrap_err());
    assert_eq!(
        error.report(),
        vec!["Error: Pattern syntax error near position 3: invalid range pattern"],
    );
}

#[test]
fn a_report_has_one_line_per_message() {
    assert!(error_report(&Vec::new()).is_empty());
    assert_eq!(error_report(&vec!["a".to_string()]), vec!["Error: a"]);
}
