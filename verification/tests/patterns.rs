use glob::Pattern;
use rebuildctl::error::Error;
use rebuildctl::pattern::{collect_patterns, pattern_texts, patterns_from};

fn strings(texts: &[&str]) -> Vec<String> {
    texts.iter().map(|text| text.to_string()).collect()
}

#[test]
fn patterns_are_compiled_in_order() {
    let patterns = patterns_from(&strings(&["lib*", "zstd", "[a-c]?"])).unwrap();
    assert_eq!(patterns.len(), 3);
    assert_eq!(patterns[0].as_str(), "lib*");
    assert_eq!(patterns[1].as_str(), "zstd");
    assert_eq!(patterns[2].as_str(), "[a-c]?");
    assert!(patterns[0].matches("libarchive"));
    assert!(!patterns[0].matches("zlib"));
    assert!(patterns[2].matches("b1"));
}

#[test]
fn no_patterns_are_fine() {
    assert!(patterns_from(&[]).unwrap().is_empty());
}

#[test]
fn the_first_bad_pattern_is_reported() {
    match patterns_from(&strings(&["ok", "a**", "***", "[", "fine"])) {
        Err(Error::Pattern(error)) => {
            assert_eq!(error.pos, 0);
            assert_eq!(error.msg, "recursive wildcards must form a single path component");
        }
        other => panic!("{:?}", other),
    }
    match patterns_from(&strings(&["***"])) {
        Err(Error::Pattern(error)) => {
            assert_eq!(error.pos, 2);
            assert_eq!(error.msg, "wildcards are either regular `*` or recursive `**`");
        }
        other => panic!("{:?}", other),
    }
}

#[test]
fn outcomes_are_collected_up_to_the_first_refusal() {
    let all = collect_patterns(vec![Pattern::new("a"), Pattern::new("b*")]).unwrap();
    assert_eq!(all, vec![Pattern::new("a").unwrap(), Pattern::new("b*").unwrap()]);
    assert!(collect_patterns(Vec::new()).unwrap().is_empty());
    match collect_patterns(vec![Pattern::new("a"), Pattern::new("xy["), Pattern::new("***")]) {
        Err(Error::Pattern(error)) => assert_eq!(error.pos, 2),
        other => panic!("{:?}", other),
    }
}

fn refusal(texts: &[&str]) -> (usize, &'static str) {
    match patterns_from(&strings(texts)) {
        Err(Error::Pattern(error)) => (error.pos, error.msg),
        other => panic!("{:?}", other),
    }
}

#[test]
fn joined_lists_compile_jointly() {
    let mut patterns = patterns_from(&strings(&["lib*", "zstd"])).unwrap();
    patterns.extend(patterns_from(&strings(&["[a-c]?"])).unwrap());
    assert_eq!(patterns_from(&strings(&["lib*", "zstd", "[a-c]?"])).unwrap(), patterns);
    assert_eq!(refusal(&["a", "xy[", "***"]), refusal(&["a", "xy["]));
    assert_eq!(refusal(&["a", "b", "***"]), refusal(&["***"]));
}

#[test]
fn compiled_patterns_keep_their_texts() {
    let texts = strings(&["lib*", "**/x", "[!a]", ""]);
    let patterns = patterns_from(&texts).unwrap();
    assert_eq!(pattern_texts(&patterns), texts);
    assert_eq!(patterns_from(&pattern_texts(&patterns)).unwrap(), patterns);
    assert!(pattern_texts(&[]).is_empty());
}

#[test]
fn compiling_again_changes_nothing() {
    let texts = strings(&["lib*", "zstd"]);
    assert_eq!(patterns_from(&texts).unwrap(), patterns_from(&texts).unwrap());
    assert_eq!(refusal(&["ok", "***"]), refusal(&["ok", "***"]));
}
