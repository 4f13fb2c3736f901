//! Every test of this file turns painting on.

use colored::Colorize;
use rebuildctl::api::{PkgRelease, QueueItem, Status, Worker};
use rebuildctl::table::{
    package_cells, package_line, queue_cells, queue_line, worker_cells, worker_line, PackageCells,
    QueueCells, WorkerCells,
};
use rebuildctl::time::Timestamp;

fn package() -> PkgRelease {
    PkgRelease {
        name: "zstd".to_string(),
        version: "1.4".to_string(),
        status: Status::Good,
        distro: "archlinux".to_string(),
        suite: "core".to_string(),
        architecture: "x86_64".to_string(),
        url: "u".to_string(),
    }
}

#[test]
fn a_worker_is_painted() {
    colored::control::set_override(true);
    let mut worker =
        Worker { key: "k".to_string(), addr: "a".to_string(), status: Some("s".to_string()) };
    let label = format!("{:40}", "\u{1b}[32mk\u{1b}[0m (\u{1b}[33ma\u{1b}[0m)");
    assert_eq!(worker_line(&worker), format!("{} => \u{1b}[1m\"s\"\u{1b}[0m", label));
    worker.status = None;
    assert_eq!(worker_line(&worker), format!("{} => \u{1b}[34midle\u{1b}[0m", label));
}

#[test]
fn a_painted_label_is_painted_over() {
    colored::control::set_override(true);
    let line = package_line(&package(), "\u{1b}[32mGOOD \u{1b}[0m");
    let status = "\u{1b}[1m[\u{1b}[32mGOOD \u{1b}[0m\u{1b}[1m]\u{1b}[0m";
    let label = format!("{:60}", "\u{1b}[1mzstd\u{1b}[0m \u{1b}[1m1.4\u{1b}[0m");
    assert_eq!(line, format!("{} {} (archlinux, core, x86_64) \"u\"", status, label));
}

#[test]
fn a_queue_item_is_painted() {
    colored::control::set_override(true);
    let item = QueueItem {
        package: package(),
        queued_at: Timestamp::new(0, 0).unwrap(),
        started_at: None,
    };
    assert_eq!(
        queue_line(&item, "7s"),
        format!(
            "\u{1b}[90m1970-01-01 00:00:00\u{1b}[0m {:60} \u{1b}[32m{:11}\u{1b}[0m {:19} \
             \"archlinux\" \"core\" \"x86_64\"",
            "\u{1b}[1mzstd\u{1b}[0m 1.4", "", "",
        ),
    );
}

#[test]
fn the_cells_of_a_worker_are_styled() {
    let mut worker =
        Worker { key: "k".to_string(), addr: "a".to_string(), status: Some("s".to_string()) };
    assert_eq!(
        worker_cells(&worker),
        WorkerCells { key: "k".green(), addr: "a".yellow(), status: "\"s\"".bold() },
    );
    worker.status = None;
    assert_eq!(
        worker_cells(&worker),
        WorkerCells { key: "k".green(), addr: "a".yellow(), status: "idle".blue() },
    );
}

#[test]
fn the_cells_of_a_package_are_styled() {
    assert_eq!(
        package_cells(&package(), "GOOD "),
        PackageCells { status: "[GOOD ]".bold(), name: "zstd".bold(), version: "1.4".bold() },
    );
}

#[test]
fn the_cells_of_a_queue_item_are_styled() {
    let mut item = QueueItem {
        package: package(),
        queued_at: Timestamp::new(0, 0).unwrap(),
        started_at: Some(Timestamp::new(1, 0).unwrap()),
    };
    let cells = |running: &str| QueueCells {
        queued: "1970-01-01 00:00:00".bright_black(),
        name: "zstd".bold(),
        running: format!("{:11}", running).green(),
    };
    assert_eq!(queue_cells(&item, "7s"), cells("7s"));
    item.started_at = None;
    assert_eq!(queue_cells(&item, "7s"), cells(""));
}
