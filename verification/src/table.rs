//! The tables that the commands print when no JSON is asked for, one line per item.

use crate::api::{PkgRelease, QueueItem, QueueList, Status, Worker};
use crate::paint::{
    blue, blue_text, bold, bold_text, bright_black, bright_black_text, green, green_text, holds,
    in_blue, in_bold, in_bright_black, in_green, in_yellow, print, shown, yellow, yellow_text,
};
use crate::text::{concatenated, debug_form, left_aligned, left_column, quoted};
use crate::time::{whole_seconds_between, Timestamp};
use colored::{Color, ColoredString};
use vstd::prelude::*;
use vstd::string::*;

verus! {

/// The line of a worker: key and address in the first column, then its status.
pub open spec fn spec_worker_row(key: Seq<char>, addr: Seq<char>, status: Seq<char>) -> Seq<char> {
    left_aligned(key + " ("@ + addr + ")"@, 40) + " => "@ + status
}

/// Lays out the line of a worker.
pub fn worker_row(key: &str, addr: &str, status: &str) -> (row: String)
    ensures
        row@ == spec_worker_row(key@, addr@, status@),
{
    let label = key.to_owned().concat(" (").concat(addr).concat(")");
    left_column(label.as_str(), 40).concat(" => ").concat(status)
}

/// The styled cells of the line of a worker.
#[derive(Debug, PartialEq, Eq)]
pub struct WorkerCells {
    pub key: ColoredString,
    pub addr: ColoredString,
    pub status: ColoredString,
}

/// The text about what a worker does: its status, quoted, or `idle`.
pub open spec fn worker_status_text(status: Option<String>) -> Seq<char> {
    match status {
        Some(status) => debug_form(status@),
        None => "idle"@,
    }
}

/// The style of that text: bold, or blue for an idle worker.
pub open spec fn worker_status_style(status: Option<String>) -> Seq<char> {
    if status is Some {
        bold()
    } else {
        blue()
    }
}

/// The styled cells of the line of `worker`: a green key, a yellow address, and the quoted status
/// in bold or a blue `idle`.
pub open spec fn spec_worker_cells(worker: Worker) -> WorkerCells {
    WorkerCells {
        key: green_text(worker.key@),
        addr: yellow_text(worker.addr@),
        status: if worker.status is Some {
            bold_text(worker_status_text(worker.status))
        } else {
            blue_text(worker_status_text(worker.status))
        },
    }
}

/// The styled cells of the line of `worker`.
pub fn worker_cells(worker: &Worker) -> (cells: WorkerCells)
    ensures
        cells == spec_worker_cells(*worker),
        holds(cells.key, worker.key@, Some(Color::Green)),
        holds(cells.addr, worker.addr@, Some(Color::Yellow)),
        holds(
            cells.status,
            worker_status_text(worker.status),
            if worker.status is Some {
                None
            } else {
                Some(Color::Blue)
            },
        ),
{
    WorkerCells {
        key: in_green(worker.key.as_str()),
        addr: in_yellow(worker.addr.as_str()),
        status: match &worker.status {
            Some(status) => in_bold(quoted(status.as_str()).as_str()),
            None => in_blue("idle"),
        },
    }
}

/// `line` shows `worker`: it is laid out from what printing its styled cells came to.
pub open spec fn shows_worker(worker: Worker, line: Seq<char>) -> bool {
    let cells = spec_worker_cells(worker);
    exists|key: Seq<char>, addr: Seq<char>, status: Seq<char>|
        {
            &&& #[trigger] shown(cells.key, worker.key@, green(), key)
            &&& #[trigger] shown(cells.addr, worker.addr@, yellow(), addr)
            &&& #[trigger] shown(
                cells.status,
                worker_status_text(worker.status),
                worker_status_style(worker.status),
                status,
            )
            &&& line == spec_worker_row(key, addr, status)
        }
}

/// The line of `worker`.
pub fn worker_line(worker: &Worker) -> (line: String)
    ensures
        shows_worker(*worker, line@),
{
    let cells = worker_cells(worker);
    let key = print(&cells.key);
    let addr = print(&cells.addr);
    let status = print(&cells.status);
    proof {
        assert(shown(cells.key, worker.key@, green(), key@));
        assert(shown(cells.addr, worker.addr@, yellow(), addr@));
        assert(shown(
            cells.status,
            worker_status_text(worker.status),
            worker_status_style(worker.status),
            status@,
        ));
    }
    worker_row(key.as_str(), addr.as_str(), status.as_str())
}

/// The lines of `workers`, in their order.
pub fn worker_lines(workers: &Vec<Worker>) -> (lines: Vec<String>)
    ensures
        lines@.len() == workers@.len(),
        forall|i: int|
            0 <= i < workers@.len() ==> shows_worker(workers@[i], (#[trigger] lines@[i])@),
{
    let mut lines: Vec<String> = Vec::new();
    let mut next: usize = 0;
    while next < workers.len()
        invariant
            next <= workers@.len(),
            lines@.len() == next,
            forall|i: int|
                0 <= i < next ==> shows_worker(workers@[i], (#[trigger] lines@[i])@),
        decreases workers@.len() - next,
    {
        lines.push(worker_line(&workers[next]));
        next = next + 1;
    }
    lines
}

/// What the table of packages calls each status, in whatever colors it is called so.
#[derive(Debug)]
pub struct StatusLabels {
    pub good: String,
    pub bad: String,
    pub unknown: String,
}

impl StatusLabels {
    /// The label of `status`.
    pub open spec fn spec_label(self, status: Status) -> Seq<char> {
        match status {
            Status::Good => self.good@,
            Status::Bad => self.bad@,
            Status::Unknown => self.unknown@,
        }
    }

    /// The label of `status`.
    pub fn label(&self, status: Status) -> (label: &str)
        ensures
            label@ == self.spec_label(status),
    {
        match status {
            Status::Good => self.good.as_str(),
            Status::Bad => self.bad.as_str(),
            Status::Unknown => self.unknown.as_str(),
        }
    }
}

/// The line of a package: its status, its name and version in a column, where it belongs, and
/// its URL.
pub open spec fn spec_package_row(
    status: Seq<char>,
    name: Seq<char>,
    version: Seq<char>,
    distro: Seq<char>,
    suite: Seq<char>,
    architecture: Seq<char>,
    url: Seq<char>,
) -> Seq<char> {
    status + " "@ + left_aligned(name + " "@ + version, 60) + " ("@ + distro + ", "@ + suite + ", "@
        + architecture + ") "@ + url
}

/// Lays out the line of a package.
pub fn package_row(
    status: &str,
    name: &str,
    version: &str,
    distro: &str,
    suite: &str,
    architecture: &str,
    url: &str,
) -> (row: String)
    ensures
        row@ == spec_package_row(status@, name@, version@, distro@, suite@, architecture@, url@),
{
    let label = name.to_owned().concat(" ").concat(version);
    let row = status.to_owned().concat(" ").concat(left_column(label.as_str(), 60).as_str());
    let row = row.concat(" (").concat(distro).concat(", ").concat(suite).concat(", ");
    row.concat(architecture).concat(") ").concat(url)
}

/// The styled cells of the line of a package.
#[derive(Debug, PartialEq, Eq)]
pub struct PackageCells {
    pub status: ColoredString,
    pub name: ColoredString,
    pub version: ColoredString,
}

/// The styled cells of the line of `package`, with `label` for its status: the label in brackets,
/// the name and the version, all in bold.
pub open spec fn spec_package_cells(package: PkgRelease, label: Seq<char>) -> PackageCells {
    PackageCells {
        status: bold_text("["@ + label + "]"@),
        name: bold_text(package.name@),
        version: bold_text(package.version@),
    }
}

/// The styled cells of the line of `package`, with `label` for its status.
pub fn package_cells(package: &PkgRelease, label: &str) -> (cells: PackageCells)
    ensures
        cells == spec_package_cells(*package, label@),
        holds(cells.status, "["@ + label@ + "]"@, None),
        holds(cells.name, package.name@, None),
        holds(cells.version, package.version@, None),
{
    let bracketed = concatenated("[", label).concat("]");
    PackageCells {
        status: in_bold(bracketed.as_str()),
        name: in_bold(package.name.as_str()),
        version: in_bold(package.version.as_str()),
    }
}

/// `line` shows `package`, with `label` for its status: it is laid out from what printing its
/// styled cells came to, where it belongs, and its quoted URL.
pub open spec fn shows_package(package: PkgRelease, label: Seq<char>, line: Seq<char>) -> bool {
    let cells = spec_package_cells(package, label);
    exists|status: Seq<char>, name: Seq<char>, version: Seq<char>|
        {
            &&& #[trigger] shown(cells.status, "["@ + label + "]"@, bold(), status)
            &&& #[trigger] shown(cells.name, package.name@, bold(), name)
            &&& #[trigger] shown(cells.version, package.version@, bold(), version)
            &&& line == spec_package_row(
                status,
                name,
                version,
                package.distro@,
                package.suite@,
                package.architecture@,
                debug_form(package.url@),
            )
        }
}

/// The line of `package`, with `label` for its status.
pub fn package_line(package: &PkgRelease, label: &str) -> (line: String)
    ensures
        shows_package(*package, label@, line@),
{
    let cells = package_cells(package, label);
    let status = print(&cells.status);
    let name = print(&cells.name);
    let version = print(&cells.version);
    proof {
        assert(shown(cells.status, "["@ + label@ + "]"@, bold(), status@));
        assert(shown(cells.name, package.name@, bold(), name@));
        assert(shown(cells.version, package.version@, bold(), version@));
    }
    package_row(
        status.as_str(),
        name.as_str(),
        version.as_str(),
        package.distro.as_str(),
        package.suite.as_str(),
        package.architecture.as_str(),
        quoted(package.url.as_str()).as_str(),
    )
}

/// The lines of `packages`, in their order.
pub fn package_lines(packages: &Vec<PkgRelease>, labels: &StatusLabels) -> (lines: Vec<String>)
    ensures
        lines@.len() == packages@.len(),
        forall|i: int|
            0 <= i < packages@.len() ==> shows_package(
                packages@[i],
                labels.spec_label(packages@[i].status),
                (#[trigger] lines@[i])@,
            ),
{
    let mut lines: Vec<String> = Vec::new();
    let mut next: usize = 0;
    while next < packages.len()
        invariant
            next <= packages@.len(),
            lines@.len() == next,
            forall|i: int|
                0 <= i < next ==> shows_package(
                    packages@[i],
                    labels.spec_label(packages@[i].status),
                    (#[trigger] lines@[i])@,
                ),
        decreases packages@.len() - next,
    {
        let package = &packages[next];
        lines.push(package_line(package, labels.label(package.status)));
        next = next + 1;
    }
    lines
}

/// For how many seconds `item` has been running at `now`, if it runs at all.
pub open spec fn spec_running_seconds(item: QueueItem, now: Timestamp) -> Option<int> {
    match item.started_at {
        Some(started_at) => Some(whole_seconds_between(now, started_at)),
        None => None,
    }
}

/// For how many seconds `item` has been running at `now`, if it runs at all.
pub fn running_seconds(item: &QueueItem, now: &Timestamp) -> (seconds: Option<i64>)
    ensures
        match seconds {
            Some(seconds) => spec_running_seconds(*item, *now) == Some(seconds as int),
            None => spec_running_seconds(*item, *now) is None,
        },
{
    match &item.started_at {
        Some(started_at) => Some(now.seconds_since(started_at)),
        None => None,
    }
}

/// For how many seconds each item of the queue has been running, in the order of the queue.
pub fn queue_running_seconds(list: &QueueList) -> (seconds: Vec<Option<i64>>)
    ensures
        seconds@.len() == list.queue@.len(),
        forall|i: int|
            0 <= i < list.queue@.len() ==> match #[trigger] seconds@[i] {
                Some(seconds) => spec_running_seconds(list.queue@[i], list.now) == Some(
                    seconds as int,
                ),
                None => spec_running_seconds(list.queue@[i], list.now) is None,
            },
{
    let mut seconds: Vec<Option<i64>> = Vec::new();
    let mut next: usize = 0;
    while next < list.queue.len()
        invariant
            next <= list.queue@.len(),
            seconds@.len() == next,
            forall|i: int|
                0 <= i < next ==> match #[trigger] seconds@[i] {
                    Some(seconds) => spec_running_seconds(list.queue@[i], list.now) == Some(
                        seconds as int,
                    ),
                    None => spec_running_seconds(list.queue@[i], list.now) is None,
                },
        decreases list.queue@.len() - next,
    {
        seconds.push(running_seconds(&list.queue[next], &list.now));
        next = next + 1;
    }
    seconds
}

/// The line of a queue item: when it was queued, its name and version in a column, for how long
/// it has been running and since when, and where it belongs.
pub open spec fn spec_queue_row(
    queued: Seq<char>,
    name: Seq<char>,
    version: Seq<char>,
    running: Seq<char>,
    started: Seq<char>,
    distro: Seq<char>,
    suite: Seq<char>,
    architecture: Seq<char>,
) -> Seq<char> {
    queued + " "@ + left_aligned(name + " "@ + version, 60) + " "@ + running + " "@ + left_aligned(
        started,
        19,
    ) + " "@ + distro + " "@ + suite + " "@ + architecture
}

/// Lays out the line of a queue item.
pub fn queue_row(
    queued: &str,
    name: &str,
    version: &str,
    running: &str,
    started: &str,
    distro: &str,
    suite: &str,
    architecture: &str,
) -> (row: String)
    ensures
        row@ == spec_queue_row(
            queued@,
            name@,
            version@,
            running@,
            started@,
            distro@,
            suite@,
            architecture@,
        ),
{
    let label = name.to_owned().concat(" ").concat(version);
    let row = queued.to_owned().concat(" ").concat(left_column(label.as_str(), 60).as_str());
    let row = row.concat(" ").concat(running).concat(" ").concat(left_column(started, 19).as_str());
    row.concat(" ").concat(distro).concat(" ").concat(suite).concat(" ").concat(architecture)
}

/// The text about the start of a queue item, empty for one that was not started.
pub open spec fn started_text(item: QueueItem) -> Seq<char> {
    match item.started_at {
        Some(started_at) => started_at.spec_text(),
        None => Seq::empty(),
    }
}

/// The text about the running time of a queue item: `running`, or nothing for an item that was
/// not started.
pub open spec fn running_text(item: QueueItem, running: Seq<char>) -> Seq<char> {
    if item.started_at is Some {
        running
    } else {
        Seq::empty()
    }
}

/// The styled cells of the line of a queue item.
#[derive(Debug, PartialEq, Eq)]
pub struct QueueCells {
    pub queued: ColoredString,
    pub name: ColoredString,
    pub running: ColoredString,
}

/// The styled cells of the line of `item`: a gray time of arrival, a bold name, and the running
/// time in a green column. `running` is how long the item has been running, if it was started.
pub open spec fn spec_queue_cells(item: QueueItem, running: Seq<char>) -> QueueCells {
    QueueCells {
        queued: bright_black_text(item.queued_at.spec_text()),
        name: bold_text(item.package.name@),
        running: green_text(left_aligned(running_text(item, running), 11)),
    }
}

/// The styled cells of the line of `item`, which has been running for `running`, if it was
/// started.
pub fn queue_cells(item: &QueueItem, running: &str) -> (cells: QueueCells)
    ensures
        cells == spec_queue_cells(*item, running@),
        holds(cells.queued, item.queued_at.spec_text(), Some(Color::BrightBlack)),
        holds(cells.name, item.package.name@, None),
        holds(
            cells.running,
            left_aligned(running_text(*item, running@), 11),
            Some(Color::Green),
        ),
{
    let running_column = match &item.started_at {
        Some(_) => left_column(running, 11),
        None => left_column(String::new().as_str(), 11),
    };
    assert(running_column@ == left_aligned(running_text(*item, running@), 11));
    QueueCells {
        queued: in_bright_black(item.queued_at.text().as_str()),
        name: in_bold(item.package.name.as_str()),
        running: in_green(running_column.as_str()),
    }
}

/// `line` shows `item`, which has been running for `running`, if it was started: it is laid out
/// from what printing its styled cells came to, its version, the time of its start, and where it
/// belongs, quoted.
pub open spec fn shows_queue_item(item: QueueItem, running: Seq<char>, line: Seq<char>) -> bool {
    let cells = spec_queue_cells(item, running);
    exists|queued: Seq<char>, name: Seq<char>, running_cell: Seq<char>|
        {
            &&& #[trigger] shown(
                cells.queued,
                item.queued_at.spec_text(),
                bright_black(),
                queued,
            )
            &&& #[trigger] shown(cells.name, item.package.name@, bold(), name)
            &&& #[trigger] shown(
                cells.running,
                left_aligned(running_text(item, running), 11),
                green(),
                running_cell,
            )
            &&& line == spec_queue_row(
                queued,
                name,
                item.package.version@,
                running_cell,
                started_text(item),
                debug_form(item.package.distro@),
                debug_form(item.package.suite@),
                debug_form(item.package.architecture@),
            )
        }
}

/// The line of `item`, which has been running for `running`, if it was started.
pub fn queue_line(item: &QueueItem, running: &str) -> (line: String)
    ensures
        shows_queue_item(*item, running@, line@),
{
    let started = match &item.started_at {
        Some(started_at) => started_at.text(),
        None => String::new(),
    };
    assert(started@ == started_text(*item));
    let cells = queue_cells(item, running);
    let queued = print(&cells.queued);
    let name = print(&cells.name);
    let running_cell = print(&cells.running);
    proof {
        assert(shown(cells.queued, item.queued_at.spec_text(), bright_black(), queued@));
        assert(shown(cells.name, item.package.name@, bold(), name@));
        assert(shown(
            cells.running,
            left_aligned(running_text(*item, running@), 11),
            green(),
            running_cell@,
        ));
    }
    queue_row(
        queued.as_str(),
        name.as_str(),
        item.package.version.as_str(),
        running_cell.as_str(),
        started.as_str(),
        quoted(item.package.distro.as_str()).as_str(),
        quoted(item.package.suite.as_str()).as_str(),
        quoted(item.package.architecture.as_str()).as_str(),
    )
}

/// The lines of the queue, in its order. `running` holds one text for every item: for how long it
/// has been running. The text of an item that was not started is not shown.
pub fn queue_lines(list: &QueueList, running: &Vec<String>) -> (lines: Vec<String>)
    requires
        running@.len() == list.queue@.len(),
    ensures
        lines@.len() == list.queue@.len(),
        forall|i: int|
            0 <= i < list.queue@.len() ==> shows_queue_item(
                list.queue@[i],
                running@[i]@,
                (#[trigger] lines@[i])@,
            ),
{
    let mut lines: Vec<String> = Vec::new();
    let mut next: usize = 0;
    while next < list.queue.len()
        invariant
            running@.len() == list.queue@.len(),
            next <= list.queue@.len(),
            lines@.len() == next,
            forall|i: int|
                0 <= i < next ==> shows_queue_item(
                    list.queue@[i],
                    running@[i]@,
                    (#[trigger] lines@[i])@,
                ),
        decreases list.queue@.len() - next,
    {
        lines.push(queue_line(&list.queue[next], running[next].as_str()));
        next = next + 1;
    }
    lines
}

} // verus!
