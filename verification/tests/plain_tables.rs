//! Every test of this file turns painting off.

use rebuildctl::api::{PkgRelease, QueueItem, QueueList, Status, Worker};
use rebuildctl::table::{
    package_lines, package_row, queue_lines, queue_row, queue_running_seconds, running_seconds,
    worker_lines, worker_row, StatusLabels,
};
use rebuildctl::time::Timestamp;

fn package(name: &str, status: Status) -> PkgRelease {
    PkgRelease {
        name: name.to_string(),
        version: "1.4.5-1".to_string(),
        status,
        distro: "archlinux".to_string(),
        suite: "core".to_string(),
        architecture: "x86_64".to_string(),
        url: "https://example.com/\"zstd\".pkg".to_string(),
    }
}

fn at(secs: i64) -> Timestamp {
    Timestamp::new(secs, 0).unwrap()
}

fn queue() -> QueueList {
    QueueList {
        now: at(1_591_711_439),
        queue: vec![
            QueueItem {
                package: package("zstd", Status::Unknown),
                queued_at: at(1_591_700_000),
                started_at: Some(at(1_591_711_400)),
            },
            QueueItem {
                package: package("zlib", Status::Bad),
                queued_at: at(1_591_700_001),
                started_at: None,
            },
        ],
    }
}

#[test]
fn workers_are_listed() {
    colored::control::set_override(false);
    let workers = vec![
        Worker { key: "k1".to_string(), addr: "10.0.0.1".to_string(), status: None },
        Worker {
            key: "k2".to_string(),
            addr: "10.0.0.2".to_string(),
            status: Some("zstd 1.4".to_string()),
        },
    ];
    assert_eq!(
        worker_lines(&workers),
        vec![
            format!("{:40} => idle", "k1 (10.0.0.1)"),
            format!("{:40} => \"zstd 1.4\"", "k2 (10.0.0.2)"),
        ],
    );
}

#[test]
fn a_wide_worker_pushes_its_status() {
    let key = "k".repeat(50);
    assert_eq!(worker_row(&key, "a", "s"), format!("{} (a) => s", key));
}

#[test]
fn packages_are_listed() {
    colored::control::set_override(false);
    let labels = StatusLabels {
        good: "GOOD ".to_string(),
        bad: "BAD  ".to_string(),
        unknown: "UNKWN".to_string(),
    };
    let packages = vec![
        package("a", Status::Good),
        package("b", Status::Bad),
        package("c", Status::Unknown),
    ];
    let tail = "(archlinux, core, x86_64) \"https://example.com/\\\"zstd\\\".pkg\"";
    assert_eq!(
        package_lines(&packages, &labels),
        vec![
            format!("[GOOD ] {:60} {}", "a 1.4.5-1", tail),
            format!("[BAD  ] {:60} {}", "b 1.4.5-1", tail),
            format!("[UNKWN] {:60} {}", "c 1.4.5-1", tail),
        ],
    );
}

#[test]
fn rows_are_laid_out() {
    assert_eq!(
        package_row("S", "n", "v", "d", "s", "a", "u"),
        format!("S {:60} (d, s, a) u", "n v"),
    );
    assert_eq!(
        queue_row("Q", "n", "v", "r", "t", "d", "s", "a"),
        format!("Q {:60} r {:19} d s a", "n v", "t"),
    );
}

#[test]
fn running_times_are_counted() {
    assert_eq!(queue_running_seconds(&queue()), vec![Some(39), None]);
    assert_eq!(running_seconds(&queue().queue[0], &at(1_591_711_390)), Some(-10));
}

#[test]
fn the_queue_is_listed() {
    colored::control::set_override(false);
    // The second item was not started, so its running time is not shown.
    let lines = queue_lines(&queue(), &vec!["39s".to_string(), "7s".to_string()]);
    assert_eq!(
        lines,
        vec![
            format!(
                "2020-06-09 10:53:20 {:60} {:11} 2020-06-09 14:03:20 \"archlinux\" \"core\" \"x86_64\"",
                "zstd 1.4.5-1", "39s",
            ),
            format!(
                "2020-06-09 10:53:21 {:60} {:11} {:19} \"archlinux\" \"core\" \"x86_64\"",
                "zlib 1.4.5-1", "", "",
            ),
        ],
    );
}
