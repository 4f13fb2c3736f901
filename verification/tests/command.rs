use rebuildctl::command::{default_log_filter, endpoint, queue_limit};
use rebuildctl::text::{json_output, left_column};

#[test]
fn the_endpoint_of_the_command_line_wins() {
    let given = || Some("http://a".to_string());
    let configured = || Some("http://b".to_string());
    assert_eq!(endpoint(given(), configured()), "http://a");
    assert_eq!(endpoint(given(), None), "http://a");
    assert_eq!(endpoint(None, configured()), "http://b");
    assert_eq!(endpoint(None, None), "http://127.0.0.1:8080");
}

#[test]
fn verbose_shows_debug_messages() {
    assert_eq!(default_log_filter(true), "debug");
    assert_eq!(default_log_filter(false), "info");
}

#[test]
fn the_head_of_the_queue_is_25_items() {
    assert_eq!(queue_limit(true), Some(25));
    assert_eq!(queue_limit(false), None);
}

#[test]
fn columns_are_padded_by_characters() {
    for text in ["", "a", "grün", "exactly 11!", "longer than eleven"] {
        assert_eq!(left_column(text, 11), format!("{:11}", text));
        assert_eq!(left_column(text, 0), text);
    }
    assert_eq!(left_column("é", 3), "é  ");
}

#[test]
fn a_json_document_ends_with_a_line_feed() {
    assert_eq!(json_output(b"[]".to_vec()), b"[]\n".to_vec());
}
